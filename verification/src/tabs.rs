//! Operations on the tabs of a window.

use vstd::prelude::*;

use crate::effect::{effect_if, Effect, EffectModel};
use crate::tab::{fresh_tab, numbered_title, title_with_number, Pty, Tab, TabModel};
use crate::tab_id::{tab_id_after, TabIds};
use crate::trusted::{has_flags, term_mode_contains};
use crate::window_context::{WindowContext, WindowModel};

verus! {

/// Bit of a terminal's mode: the program wants to hear of changes of the focus.
pub const FOCUS_IN_OUT: u32 = 0x800;

/// Control sequence that reports the loss of the focus.
pub open spec fn focus_out() -> Seq<u8> {
    seq![0x1bu8, 0x5bu8, 0x4fu8]
}

/// Control sequence that reports the gain of the focus.
pub open spec fn focus_in() -> Seq<u8> {
    seq![0x1bu8, 0x5bu8, 0x49u8]
}

/// The index of what was at `i`, once the element at `removed` is gone.
pub open spec fn index_after_removal(i: int, removed: int) -> int {
    if i > removed {
        i - 1
    } else {
        i
    }
}

/// The index of what was at `i`, once something was put in at `inserted`.
pub open spec fn index_after_insertion(i: int, inserted: int) -> int {
    if i >= inserted {
        i + 1
    } else {
        i
    }
}

/// The index of what was at `i`, once the element at `from` has moved to `to`.
pub open spec fn index_after_move(i: int, from: int, to: int) -> int {
    if i == from {
        to
    } else {
        index_after_insertion(index_after_removal(i, from), to)
    }
}

/// What the opening of a tab needs to know.
#[derive(Clone, Copy, Debug, PartialEq, Eq)]
pub struct TabRequest {
    /// Identifier of the new tab.
    pub tab_id: usize,
    /// Identifier of the window.
    pub window_id: u64,
    /// File descriptor of the active tab's PTY.
    pub master_fd: i32,
    /// Process identifier of the active tab's shell.
    pub shell_pid: u32,
}

impl<H, E> WindowModel<H, E> {
    /// The window after the tab `tab_id` took on the title `title`.
    pub open spec fn tab_title_updated(self, tab_id: usize, title: Seq<char>) -> Self {
        let tabs = match self.index_of(tab_id) {
            Some(i) => self.tabs.update(i, self.tabs[i].with_title(title)),
            None => self.tabs,
        };
        WindowModel { tabs, ..self }.titled_if(
            self.active().id == tab_id && self.title_follows_tabs(),
            title,
        )
    }

    /// The window after the tab `tab_id` went back to the title that its place gives it.
    pub open spec fn tab_title_reset(self, tab_id: usize) -> Self {
        match self.index_of(tab_id) {
            Some(i) => WindowModel {
                tabs: self.tabs.update(
                    i,
                    self.tabs[i].with_title(numbered_title((i + 1) as nat)),
                ),
                ..self
            }.titled_if(
                self.active().id == tab_id && self.title_follows_tabs(),
                self.config.title,
            ),
            None => self,
        }
    }

    /// Index of the active tab once the tab at `removed` is gone: the same tab, or, if that one is
    /// gone, the tab that took its place, or the last one.
    pub open spec fn active_after_removal(self, removed: int) -> int {
        let i = index_after_removal(self.active_tab, removed);
        if i < self.tabs.len() - 1 {
            i
        } else {
            self.tabs.len() - 2
        }
    }

    /// The window without the tab `tab_id`.
    pub open spec fn tab_closed(self, tab_id: usize) -> Self {
        match self.index_of(tab_id) {
            Some(i) => {
                let tabs = self.tabs.remove(i);
                if tabs.len() == 0 {
                    WindowModel { tabs, ..self }
                } else {
                    let active_tab = self.active_after_removal(i);
                    WindowModel {
                        tabs,
                        active_tab,
                        dirty: true,
                        display: self.display.awaiting_update(),
                        ..self
                    }.asking(
                        seq![EffectModel::MarkFullyDamaged, EffectModel::RequestDisplayUpdate],
                    ).titled_if(self.title_follows_tabs(), tabs[active_tab].title)
                }
            },
            None => self,
        }
    }

    /// The tabs after the focus has moved from the active tab to the one at `index`.
    pub open spec fn tabs_refocused(self, index: int) -> Seq<TabModel<H>> {
        let focused = self.active().terminal.is_focused;
        Seq::new(
            self.tabs.len(),
            |i: int|
                if i == index {
                    self.tabs[i].with_focus(focused)
                } else if i == self.active_tab {
                    self.tabs[i].with_focus(false)
                } else {
                    self.tabs[i]
                },
        )
    }

    /// What is asked of the terminals and the PTYs when the focus moves from the active tab to the
    /// one at `index`.
    pub open spec fn focus_effects(self, index: int) -> Seq<EffectModel> {
        let old = self.active().terminal;
        let new = self.tabs[index].terminal;
        seq![EffectModel::SetTerminalFocus { tab: self.active_tab, focused: false }]
            + effect_if(
            old.is_focused && has_flags(old.mode, FOCUS_IN_OUT),
            EffectModel::Notify { tab: self.active_tab, bytes: focus_out() },
        ) + seq![EffectModel::SetTerminalFocus { tab: index, focused: old.is_focused }] + effect_if(
            old.is_focused && has_flags(new.mode, FOCUS_IN_OUT),
            EffectModel::Notify { tab: index, bytes: focus_in() },
        )
    }

    /// The window after the tab at `index` became the active one.
    pub open spec fn tab_selected(self, index: int) -> Self {
        if index < self.tabs.len() {
            WindowModel {
                tabs: self.tabs_refocused(index),
                active_tab: index,
                dirty: true,
                display: self.display.awaiting_update(),
                ..self
            }.asking(
                self.focus_effects(index)
                    + seq![EffectModel::MarkFullyDamaged, EffectModel::RequestDisplayUpdate],
            ).titled_if(self.title_follows_tabs(), self.tabs[index].title)
        } else {
            self
        }
    }

    /// The window after the tab at `from` has moved to `to`.
    pub open spec fn tab_reordered(self, from: int, to: int) -> Self {
        if from != to && from < self.tabs.len() && to < self.tabs.len() {
            WindowModel {
                tabs: self.tabs.remove(from).insert(to, self.tabs[from]),
                active_tab: index_after_move(self.active_tab, from, to),
                dirty: true,
                display: self.display.awaiting_update(),
                ..self
            }.asking(seq![EffectModel::RequestDisplayUpdate])
        } else {
            self
        }
    }

    /// The window with `tab` behind its other tabs and active.
    pub open spec fn tab_added(self, tab: TabModel<H>) -> Self {
        WindowModel { tabs: self.tabs.push(tab), ..self }.tab_selected(self.tabs.len() as int)
    }
}

impl<H, E> WindowContext<H, E> {
    /// Notes that the display has changes to apply.
    pub(crate) fn request_display_update(&mut self)
        ensures
            final(self)@ == (WindowModel {
                dirty: true,
                display: old(self)@.display.awaiting_update(),
                ..old(self)@
            }).asking(seq![EffectModel::RequestDisplayUpdate]),
            final(self).tabs@ == old(self).tabs@,
    {
        self.dirty = true;
        self.display.update_pending = true;
        self.ask(Effect::RequestDisplayUpdate);
    }

    /// Gives the window the title of the active tab, if the title follows the tabs.
    fn follow_active_title(&mut self)
        requires
            old(self)@.has_active_tab(),
        ensures
            final(self)@ == old(self)@.titled_if(
                old(self)@.title_follows_tabs(),
                old(self)@.active().title,
            ),
    {
        if !self.preserve_title && self.config.dynamic_title {
            let title = self.active_tab().title.clone();
            self.set_title(title);
        }
    }

    /// Sets the focus flag of the terminal at `tab`. If `report` holds and the terminal wants to
    /// hear of changes of the focus, its PTY gets `bytes`.
    fn set_focus(&mut self, tab: usize, focused: bool, report: bool, bytes: Vec<u8>)
        requires
            tab < old(self)@.tabs.len(),
        ensures
            final(self)@ == (WindowModel {
                tabs: old(self)@.tabs.update(
                    tab as int,
                    old(self)@.tabs[tab as int].with_focus(focused),
                ),
                ..old(self)@
            }).asking(
                seq![EffectModel::SetTerminalFocus { tab: tab as int, focused }] + effect_if(
                    report && has_flags(old(self)@.tabs[tab as int].terminal.mode, FOCUS_IN_OUT),
                    EffectModel::Notify { tab: tab as int, bytes: bytes@ },
                ),
            ),
    {
        self.tabs[tab].terminal.is_focused = focused;
        assert(self@.tabs =~= old(self)@.tabs.update(
            tab as int,
            old(self)@.tabs[tab as int].with_focus(focused),
        ));
        let focus_events: bool = term_mode_contains(self.tabs[tab].terminal.mode, FOCUS_IN_OUT);
        self.ask(Effect::SetTerminalFocus { tab, focused });
        if report && focus_events {
            self.ask(Effect::Notify { tab, bytes });
        }
        assert(self@.effects =~= old(self)@.effects + (seq![
            EffectModel::SetTerminalFocus { tab: tab as int, focused },
        ] + effect_if(report && focus_events, EffectModel::Notify { tab: tab as int, bytes: bytes@ })));
    }

    /// Makes the tab at `index` the active one and passes the focus on to it.
    fn move_focus(&mut self, index: usize)
        requires
            old(self)@.has_active_tab(),
            index < old(self)@.tabs.len(),
        ensures
            final(self)@ == (WindowModel {
                tabs: old(self)@.tabs_refocused(index as int),
                active_tab: index as int,
                ..old(self)@
            }).asking(old(self)@.focus_effects(index as int)),
    {
        let old_index: usize = self.active_tab;
        let focused: bool = self.tabs[old_index].terminal.is_focused;

        // Programs may update their state when they lose the focus (e.g. stop blinking).
        let lost: Vec<u8> = vec![0x1b, 0x5b, 0x4f];
        assert(lost@ =~= focus_out());
        self.set_focus(old_index, false, focused, lost);

        self.active_tab = index;

        let gained: Vec<u8> = vec![0x1b, 0x5b, 0x49];
        assert(gained@ =~= focus_in());
        self.set_focus(index, focused, focused, gained);
        assert(self@.tabs =~= old(self)@.tabs_refocused(index as int));
        assert(self@.effects =~= old(self)@.effects + old(self)@.focus_effects(index as int));
    }

    /// Update the stored title of a tab and, if it's the active tab, update the window title.
    pub fn update_tab_title(&mut self, tab_id: usize, title: String)
        requires
            old(self)@.has_active_tab(),
        ensures
            final(self)@ == old(self)@.tab_title_updated(tab_id, title@),
    {
        let found: Option<usize> = self.tab_index_by_id(tab_id);
        let active_id: usize = self.active_tab_id();
        if let Some(i) = found {
            self.tabs[i].title = title.clone();
            assert(self@.tabs =~= old(self)@.tabs.update(
                i as int,
                old(self)@.tabs[i as int].with_title(title@),
            ));
        }
        if active_id == tab_id && !self.preserve_title && self.config.dynamic_title {
            self.set_title(title);
        }
    }

    /// Reset a tab's title to its default and update the window title if it's active.
    pub fn reset_tab_title(&mut self, tab_id: usize)
        requires
            old(self)@.has_tab(tab_id) ==> old(self)@.has_active_tab(),
        ensures
            final(self)@ == old(self)@.tab_title_reset(tab_id),
    {
        let found: Option<usize> = self.tab_index_by_id(tab_id);
        if let Some(i) = found {
            let active_id: usize = self.active_tab_id();
            assert(i < self.tabs.len());
            self.tabs[i].title = title_with_number(i + 1);
            assert(self@.tabs =~= old(self)@.tabs.update(
                i as int,
                old(self)@.tabs[i as int].with_title(numbered_title((i + 1) as nat)),
            ));
            if active_id == tab_id && !self.preserve_title && self.config.dynamic_title {
                self.set_title(self.config.title.clone());
            }
        }
    }

    /// Close the tab with the given stable ID.
    pub fn close_tab_by_id(&mut self, tab_id: usize)
        ensures
            final(self)@ == old(self)@.tab_closed(tab_id),
    {
        let found: Option<usize> = self.tab_index_by_id(tab_id);
        if let Some(i) = found {
            self.tabs.remove(i);
            assert(self@.tabs =~= old(self)@.tabs.remove(i as int));
            if self.tabs.is_empty() {
                return;
            }
            // Keep active_tab pointing at the same logical tab after the removal.
            if self.active_tab > i {
                self.active_tab = self.active_tab - 1;
            }
            // The active tab itself may have been the last one.
            if self.active_tab >= self.tabs.len() {
                self.active_tab = self.tabs.len() - 1;
            }
            self.ask(Effect::MarkFullyDamaged);
            self.request_display_update();
            self.follow_active_title();
            assert(self@.effects =~= old(self)@.tab_closed(tab_id).effects);
        }
    }

    /// Select the tab at the given index.
    pub fn select_tab(&mut self, index: usize)
        requires
            index < old(self)@.tabs.len() ==> old(self)@.has_active_tab(),
        ensures
            final(self)@ == old(self)@.tab_selected(index as int),
    {
        if index >= self.tabs.len() {
            return;
        }
        self.move_focus(index);

        // Force a full redraw for the new tab's content.
        self.ask(Effect::MarkFullyDamaged);
        self.request_display_update();
        self.follow_active_title();
        assert(self@.effects =~= old(self)@.tab_selected(index as int).effects);
    }

    /// Reorder a tab from `from` index to `to` index.
    pub fn reorder_tab(&mut self, from: usize, to: usize)
        ensures
            final(self)@ == old(self)@.tab_reordered(from as int, to as int),
    {
        if from == to || from >= self.tabs.len() || to >= self.tabs.len() {
            return;
        }
        let tab = self.tabs.remove(from);
        self.tabs.insert(to, tab);
        assert(self@.tabs =~= old(self)@.tabs.remove(from as int).insert(
            to as int,
            old(self)@.tabs[from as int],
        ));
        if self.active_tab == from {
            self.active_tab = to;
        } else if from < self.active_tab && to >= self.active_tab {
            self.active_tab = self.active_tab - 1;
        } else if from > self.active_tab && to <= self.active_tab {
            self.active_tab = self.active_tab + 1;
        }
        self.request_display_update();
    }

    /// Starts the creation of a new tab: takes an identifier for it, and says where its shell may
    /// find the directory to start in.
    pub fn tab_request(&self, ids: &mut TabIds) -> (r: TabRequest)
        requires
            self@.has_active_tab(),
        ensures
            final(ids).next == tab_id_after(old(ids).next),
            r.tab_id == old(ids).next,
            r.window_id == self@.display.window.id,
            r.master_fd == self@.active().master_fd,
            r.shell_pid == self@.active().shell_pid,
            r.master_fd == self.tabs@[self.active_tab as int].master_fd,
            r.shell_pid == self.tabs@[self.active_tab as int].shell_pid,
    {
        let tab_id: usize = ids.next_tab_id();
        let active = self.active_tab();
        TabRequest {
            tab_id,
            window_id: self.display.window.id,
            master_fd: active.master_fd,
            shell_pid: active.shell_pid,
        }
    }

    /// Create a new tab in this window from the PTY that was opened for it. Returns the new tab's
    /// stable ID. Without a PTY the window stays as it is. In a window without tabs, the new tab is
    /// active from the start, and keeps the focus that its terminal started with.
    pub fn create_tab<R>(&mut self, tab_id: usize, pty: Result<Pty<H>, R>) -> (r: usize)
        requires
            pty is Ok ==> old(self)@.active_tab <= old(self)@.tabs.len() && tab_id < usize::MAX,
        ensures
            r == tab_id,
            match pty {
                Ok(pty) => final(self)@ == old(self)@.tab_added(fresh_tab(tab_id, pty)),
                Err(_) => final(self)@ == old(self)@,
            },
            pty is Ok ==> {
                &&& final(self)@.tabs.len() == old(self)@.tabs.len() + 1
                &&& final(self)@.active_tab == old(self)@.tabs.len()
                &&& final(self)@.tabs.last().id == tab_id
            },
    {
        match Tab::new(tab_id, pty) {
            Ok(tab) => {
                self.tabs.push(tab);
                assert(self@.tabs =~= old(self)@.tabs.push(tab@));
                let new_index: usize = self.tabs.len() - 1;
                self.select_tab(new_index);
            },
            Err(_) => {},
        }
        tab_id
    }
}

} // verus!
