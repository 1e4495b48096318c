//! Processing of a window's events.
//!
//! Events are staged until the event loop is about to wait or asks for a frame. The staged batch
//! then goes through the input processor, the display and the hints. Each of these works outside
//! this library, and what it leaves behind is written back to the window before the next step.

use vstd::prelude::*;

use crate::effect::{effect_if, texts, Effect, EffectModel};
use crate::tab::{Direction, SearchState, Terminal};
use crate::trusted::{has_flags, line_is, line_plus, term_mode_contains};
use crate::window_context::{tab_titles, QueuedEvent, WindowContext, WindowModel};

verus! {

/// Bit of a terminal's mode: Vi mode is on.
pub const VI: u32 = 0x1_0000;

/// An event of the event loop.
#[derive(Clone, Debug, PartialEq, Eq)]
pub enum LoopEvent<E> {
    /// The event loop is about to wait.
    AboutToWait,
    /// The platform asks for a frame.
    RedrawRequested,
    /// Any other event.
    Other(E),
}

/// Events that are processed together, and the state of the window before that.
#[derive(Clone, Debug, PartialEq, Eq)]
pub struct EventBatch<E> {
    /// The events, oldest first.
    pub events: Vec<QueuedEvent<E>>,
    /// Whether the platform asked for a frame.
    pub redraw_requested: bool,
    /// Index of the active tab.
    pub active_tab: usize,
    /// Stable identifier of the active tab.
    pub active_tab_id: usize,
    /// Number of tabs.
    pub tabs_len: usize,
    /// File descriptor of the active tab's PTY.
    pub master_fd: i32,
    /// Process identifier of the active tab's shell.
    pub shell_pid: u32,
    /// Whether a search was active.
    pub old_is_searching: bool,
    /// Titles of the tabs, from left to right.
    pub tab_titles: Vec<String>,
}

/// Where the active tab's cursor and the origin of its search stand.
#[derive(Clone, Copy, Debug, PartialEq, Eq, Structural)]
pub struct Viewport {
    /// The cursor is on the last line.
    pub cursor_at_bottom: bool,
    /// The search starts from the last line.
    pub origin_at_bottom: bool,
}

/// What the processing of a batch waits for.
#[derive(Clone, Copy, Debug, PartialEq, Eq, Structural)]
pub enum Step {
    /// The display has to apply its changes, for a number of tabs and a tab bar that is hidden or
    /// not.
    UpdateDisplay { before: Viewport, tab_count: usize, tab_bar_hidden: bool },
    /// The highlighted hints have to be computed again.
    UpdateHints,
    /// Nothing.
    Done,
}

/// Whether the cursor of `terminal` is on its last line.
pub open spec fn cursor_at_bottom(terminal: Terminal) -> bool {
    terminal.cursor_line + 1 == terminal.screen_lines as i32
}

/// Whether a search in `terminal` starts from its last line.
pub open spec fn origin_at_bottom(terminal: Terminal, search: SearchState) -> bool {
    if has_flags(terminal.mode, VI) {
        terminal.vi_cursor_line == (terminal.screen_lines - 1) as i32
    } else {
        search.direction == Direction::Left
    }
}

/// Lines by which the viewport scrolls up once the display made room for the search bar.
///
/// It scrolls only when a search has begun: up, if the viewport is at the end of the history and
/// its last line holds the cursor but not the origin of the search; down, if it is further up and
/// its last line holds the origin.
pub open spec fn scroll_for_search(
    was_searching: bool,
    is_searching: bool,
    display_offset: nat,
    before: Viewport,
) -> Option<int> {
    if was_searching || !is_searching {
        None
    } else if display_offset == 0 && before.cursor_at_bottom && !before.origin_at_bottom {
        Some(1)
    } else if display_offset != 0 && before.origin_at_bottom {
        Some(-1)
    } else {
        None
    }
}

/// Notes where the cursor and the origin of the search stand, before the display changes.
pub fn viewport_before_update(terminal: &Terminal, search: &SearchState) -> (r: Viewport)
    requires
        terminal.cursor_line < i32::MAX,
        has_flags(terminal.mode, VI) ==> terminal.screen_lines > 0,
    ensures
        r.cursor_at_bottom == cursor_at_bottom(*terminal),
        r.cursor_at_bottom <==> terminal.cursor_line + 1 == terminal.screen_lines as i32,
        r.origin_at_bottom == origin_at_bottom(*terminal, *search),
{
    let num_lines: usize = terminal.screen_lines;
    let cursor_at_bottom: bool = line_is(line_plus(terminal.cursor_line, 1), num_lines);
    let origin_at_bottom: bool = if term_mode_contains(terminal.mode, VI) {
        line_is(terminal.vi_cursor_line, num_lines - 1)
    } else {
        search.direction == Direction::Left
    };
    Viewport { cursor_at_bottom, origin_at_bottom }
}

/// Decides how far the viewport scrolls up after the display has changed.
pub fn scroll_after_update(
    was_searching: bool,
    search: &SearchState,
    terminal: &Terminal,
    before: Viewport,
) -> (r: Option<i32>)
    ensures
        match scroll_for_search(
            was_searching,
            search.searching(),
            terminal.display_offset as nat,
            before,
        ) {
            Some(delta) => r is Some && r->Some_0 == delta,
            None => r is None,
        },
{
    let is_searching: bool = search.history_index.is_some();
    if !was_searching && is_searching {
        let display_offset: usize = terminal.display_offset;
        if display_offset == 0 && before.cursor_at_bottom && !before.origin_at_bottom {
            return Some(1);
        } else if display_offset != 0 && before.origin_at_bottom {
            return Some(-1);
        }
    }
    None
}

impl<H, E> WindowModel<H, E> {
    /// The window after `event` was put behind the staged events.
    pub open spec fn staged(self, event: E) -> Self {
        WindowModel { event_queue: self.event_queue.push(QueuedEvent::Received(event)), ..self }
    }

    /// The window after its staged events were taken out to be processed, by a terminal that has
    /// the size of the display.
    pub open spec fn batch_taken(self) -> Self {
        WindowModel { event_queue: Seq::<QueuedEvent<E>>::empty(), ..self.fitted() }
    }

    /// Whether `batch` holds the staged events and describes the window.
    pub open spec fn describes(self, batch: EventBatch<E>) -> bool {
        &&& batch.events@ == self.event_queue
        &&& batch.active_tab == self.active_tab
        &&& batch.active_tab_id == self.active().id
        &&& batch.tabs_len == self.tabs.len()
        &&& batch.master_fd == self.active().master_fd
        &&& batch.shell_pid == self.active().shell_pid
        &&& batch.old_is_searching == self.active().search_state.searching()
        &&& texts(batch.tab_titles@) == tab_titles(self.tabs)
    }

    /// Whether the hints have to be computed again.
    pub open spec fn hints_outdated(self) -> bool {
        self.dirty || self.hint_highlight_dirty
    }

    /// The window after the last step of a batch: it asks for a frame, if it has to be drawn, the
    /// platform can show it and has not asked for one itself.
    pub open spec fn batch_finished(self, redraw_requested: bool) -> Self {
        self.asking(
            effect_if(
                self.dirty && self.display.window.has_frame && !self.occluded
                    && !redraw_requested,
                EffectModel::RequestRedraw,
            ),
        )
    }

    /// What a batch waits for, once the display is up to date.
    pub open spec fn step_after_display(self) -> Step {
        if self.hints_outdated() {
            Step::UpdateHints
        } else {
            Step::Done
        }
    }

    /// The window once the display is up to date.
    pub open spec fn display_settled(self, redraw_requested: bool) -> Self {
        if self.hints_outdated() {
            self
        } else {
            self.batch_finished(redraw_requested)
        }
    }

    /// The window after the display applied its changes while the tab at `tab` was active.
    pub open spec fn display_updated(
        self,
        tab: int,
        was_searching: bool,
        before: Viewport,
    ) -> Self {
        WindowModel { dirty: true, ..self }.asking(
            match scroll_for_search(
                was_searching,
                self.tabs[tab].search_state.searching(),
                self.tabs[tab].terminal.display_offset as nat,
                before,
            ) {
                Some(delta) => seq![EffectModel::ScrollDisplay { tab, delta }],
                None => seq![],
            },
        )
    }

    /// The window after the hints were computed again. `changed` tells whether they differ.
    pub open spec fn hints_updated(self, changed: bool) -> Self {
        WindowModel { dirty: self.dirty || changed, hint_highlight_dirty: false, ..self }
    }
}

impl<H, E> WindowContext<H, E> {
    /// Process an event for this terminal window.
    ///
    /// An event is staged, unless the event loop is about to wait or asks for a frame. Then the
    /// staged events, if there are any, are handed out to be processed.
    pub fn handle_event(&mut self, event: LoopEvent<E>) -> (r: Option<EventBatch<E>>)
        requires
            !(event is Other) && old(self)@.event_queue.len() > 0 ==> old(self)@.has_active_tab(),
        ensures
            event matches LoopEvent::Other(other) ==> r is None && final(self)@
                == old(self)@.staged(other),
            !(event is Other) && old(self)@.event_queue.len() == 0 ==> r is None && final(self)@
                == old(self)@,
            !(event is Other) && old(self)@.event_queue.len() > 0 ==> {
                &&& r is Some
                &&& r->Some_0.redraw_requested == (event is RedrawRequested)
                &&& old(self)@.describes(r->Some_0)
                &&& r->Some_0.active_tab < old(self)@.tabs.len()
                &&& r->Some_0.active_tab_id == old(self)@.tabs[r->Some_0.active_tab as int].id
                &&& final(self)@ == old(self)@.batch_taken()
            },
    {
        let redraw_requested: bool = match event {
            LoopEvent::AboutToWait => false,
            LoopEvent::RedrawRequested => true,
            LoopEvent::Other(other) => {
                self.event_queue.push(QueuedEvent::Received(other));
                return None;
            },
        };
        // Skip further event handling with no staged updates.
        if self.event_queue.is_empty() {
            return None;
        }
        let active_tab: usize = self.active_tab;
        let active_tab_id: usize = self.tabs[active_tab].id;
        let tabs_len: usize = self.tabs.len();
        let master_fd: i32 = self.tabs[active_tab].master_fd;
        let shell_pid: u32 = self.tabs[active_tab].shell_pid;
        let old_is_searching: bool = self.tabs[active_tab].search_state.history_index.is_some();

        // A tab that comes from a window of another size still has the size of that window.
        let _ = self.fit_active_terminal();
        assert(tab_titles(self@.tabs) =~= tab_titles(old(self)@.tabs));

        let tab_titles = self.titles();
        let mut events: Vec<QueuedEvent<E>> = Vec::new();
        events.append(&mut self.event_queue);
        assert(events@ =~= old(self)@.event_queue);
        assert(self@.event_queue =~= Seq::<QueuedEvent<E>>::empty());
        Some(
            EventBatch {
                events,
                redraw_requested,
                active_tab,
                active_tab_id,
                tabs_len,
                master_fd,
                shell_pid,
                old_is_searching,
                tab_titles,
            },
        )
    }

    /// Finds the next step, once the display is up to date. At the last one the window asks for a
    /// frame, where it needs one.
    fn settle_display(&mut self, redraw_requested: bool) -> (r: Step)
        ensures
            r == old(self)@.step_after_display(),
            final(self)@ == old(self)@.display_settled(redraw_requested),
    {
        if self.dirty || self.hint_highlight_dirty {
            Step::UpdateHints
        } else {
            self.finish_batch(redraw_requested);
            Step::Done
        }
    }

    /// Asks for a frame, where the window needs one.
    fn finish_batch(&mut self, redraw_requested: bool)
        ensures
            final(self)@ == old(self)@.batch_finished(redraw_requested),
    {
        if self.dirty && self.display.window.has_frame && !self.occluded && !redraw_requested {
            self.ask(Effect::RequestRedraw);
        }
        assert(self@.effects =~= old(self)@.batch_finished(redraw_requested).effects);
    }

    /// Goes on with a batch, once its events were processed.
    pub fn events_processed(&mut self, batch: &EventBatch<E>) -> (r: Step)
        requires
            batch.active_tab < old(self)@.tabs.len(),
            old(self)@.display.update_pending ==> {
                let terminal = old(self)@.tabs[batch.active_tab as int].terminal;
                &&& terminal.cursor_line < i32::MAX
                &&& has_flags(terminal.mode, VI) ==> terminal.screen_lines > 0
            },
        ensures
            old(self)@.display.update_pending ==> {
                let tab = old(self)@.tabs[batch.active_tab as int];
                &&& r == Step::UpdateDisplay {
                    before: Viewport {
                        cursor_at_bottom: cursor_at_bottom(tab.terminal),
                        origin_at_bottom: origin_at_bottom(tab.terminal, tab.search_state),
                    },
                    tab_count: batch.tabs_len,
                    tab_bar_hidden: old(self)@.tab_bar_hidden,
                }
                &&& final(self)@ == old(self)@
            },
            !old(self)@.display.update_pending ==> {
                &&& r == old(self)@.step_after_display()
                &&& final(self)@ == old(self)@.display_settled(batch.redraw_requested)
            },
    {
        if self.display.update_pending {
            let tab = &self.tabs[batch.active_tab];
            let before = viewport_before_update(&tab.terminal, &tab.search_state);
            Step::UpdateDisplay {
                before,
                tab_count: batch.tabs_len,
                tab_bar_hidden: self.tab_bar_hidden,
            }
        } else {
            self.settle_display(batch.redraw_requested)
        }
    }

    /// Goes on with a batch, once the display applied its changes.
    pub fn display_updated(&mut self, batch: &EventBatch<E>, before: Viewport) -> (r: Step)
        requires
            batch.active_tab < old(self)@.tabs.len(),
        ensures
            r == Step::UpdateHints,
            final(self)@ == old(self)@.display_updated(
                batch.active_tab as int,
                batch.old_is_searching,
                before,
            ),
    {
        let tab = &self.tabs[batch.active_tab];
        let scroll: Option<i32> = scroll_after_update(
            batch.old_is_searching,
            &tab.search_state,
            &tab.terminal,
            before,
        );
        if let Some(delta) = scroll {
            self.ask(Effect::ScrollDisplay { tab: batch.active_tab, delta });
        }
        self.dirty = true;
        assert(self@.effects =~= old(self)@.display_updated(
            batch.active_tab as int,
            batch.old_is_searching,
            before,
        ).effects);
        self.settle_display(batch.redraw_requested)
    }

    /// Goes on with a batch, once the hints were computed again. `changed` tells whether they
    /// differ from those before.
    pub fn hints_updated(&mut self, batch: &EventBatch<E>, changed: bool) -> (r: Step)
        ensures
            r == Step::Done,
            final(self)@ == old(self)@.hints_updated(changed).batch_finished(
                batch.redraw_requested,
            ),
    {
        self.dirty = self.dirty || changed;
        self.hint_highlight_dirty = false;
        self.finish_batch(batch.redraw_requested);
        Step::Done
    }
}

} // verus!
