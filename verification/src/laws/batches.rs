//! Laws of what a batch of events says, changes and asks for.

use vstd::prelude::*;

use crate::effect::{texts, EffectModel};
use crate::events::{
    cursor_at_bottom, origin_at_bottom, scroll_for_search, EventBatch, Step, Viewport,
};
use crate::laws::change::{
    asked, asks_for, one_if, same_appearance, same_config, same_events, same_tabs,
};
use crate::laws::frames::{active_resized, misfits};
use crate::tab::{Direction, SearchState, Terminal};
use crate::window_context::{QueuedEvent, WindowModel};

verus! {

/// A batch that describes a window holds its staged events in their order, and says of its active
/// tab, and of no other, which identifier, PTY, shell and search it has.
pub proof fn law_batch_describes_active_tab<H, E>(w: WindowModel<H, E>, batch: EventBatch<E>)
    requires
        0 <= w.active_tab < w.tabs.len(),
        w.describes(batch),
    ensures
        batch.events@ == w.event_queue,
        batch.active_tab == w.active_tab,
        batch.active_tab < w.tabs.len(),
        batch.active_tab_id == w.tabs[batch.active_tab as int].id,
        batch.master_fd == w.tabs[batch.active_tab as int].master_fd,
        batch.shell_pid == w.tabs[batch.active_tab as int].shell_pid,
        batch.old_is_searching <==> w.tabs[batch.active_tab as int].search_state.history_index
            is Some,
        batch.tabs_len == w.tabs.len(),
        batch.tab_titles@.len() == w.tabs.len(),
        forall|i: int|
            0 <= i < w.tabs.len() ==> (#[trigger] batch.tab_titles@[i])@ == w.tabs[i].title,
{
    let titles = texts(batch.tab_titles@);
    assert(titles.len() == batch.tab_titles@.len());
    assert forall|i: int| 0 <= i < w.tabs.len() implies (#[trigger] batch.tab_titles@[i])@
        == w.tabs[i].title by {
        assert(titles[i] == batch.tab_titles@[i]@);
    }
}

/// An event that is staged waits behind all others, and changes nothing else.
pub proof fn law_event_waits<H, E>(w: WindowModel<H, E>, event: E)
    ensures
        ({
            let r = w.staged(event);
            &&& r.event_queue.len() == w.event_queue.len() + 1
            &&& r.event_queue.drop_last() == w.event_queue
            &&& r.event_queue.last() == QueuedEvent::Received(event)
            &&& r.hint_highlight_dirty == w.hint_highlight_dirty
            &&& r.display == w.display
            &&& r.dirty == w.dirty
            &&& same_appearance(w, r)
            &&& same_config(w, r)
            &&& same_tabs(w, r)
            &&& asks_for(w, r, 0)
        }),
{
    assert(w.staged(event).event_queue.drop_last() =~= w.event_queue);
}

/// A batch that is taken out leaves no event behind, and resizes the active tab's terminal exactly
/// if it has another size than the display. Nothing else changes.
pub proof fn law_batch_steps<H, E>(w: WindowModel<H, E>)
    requires
        0 <= w.active_tab < w.tabs.len(),
    ensures
        ({
            let r = w.batch_taken();
            let tab = w.active_tab;
            let size = w.display.size_info;
            &&& r.event_queue.len() == 0
            &&& r.hint_highlight_dirty == w.hint_highlight_dirty
            &&& asks_for(w, r, 2 * one_if(misfits(w, tab)))
            &&& misfits(w, tab) ==> {
                &&& asked(w, r)[0] == (EffectModel::NotifyResize { tab, size })
                &&& asked(w, r)[1] == (EffectModel::ResizeTerminal { tab, size })
            }
            &&& r.dirty == w.dirty
            &&& r.display == w.display
            &&& active_resized(w, r)
            &&& same_appearance(w, r)
            &&& same_config(w, r)
        }),
{
}

/// Where the cursor and the origin of the search stand: the cursor on the last line, counted from
/// zero; the origin there if the cursor of Vi mode is, or, outside Vi mode, if the search goes to
/// the left. The numbers of lines are compared as 32 bit integers.
pub proof fn law_viewport(terminal: Terminal, search: SearchState)
    ensures
        cursor_at_bottom(terminal) <==> terminal.cursor_line == terminal.screen_lines as i32 - 1,
        terminal.screen_lines <= i32::MAX ==> (cursor_at_bottom(terminal) <==> terminal.cursor_line
            == terminal.screen_lines - 1),
        terminal.mode & 0x1_0000u32 == 0x1_0000u32 && terminal.screen_lines > 0 ==> {
            &&& origin_at_bottom(terminal, search) <==> terminal.vi_cursor_line
                == (terminal.screen_lines - 1) as i32
            &&& terminal.screen_lines <= i32::MAX ==> (origin_at_bottom(terminal, search)
                <==> terminal.vi_cursor_line == terminal.screen_lines - 1)
        },
        terminal.mode & 0x1_0000u32 != 0x1_0000u32 ==> (origin_at_bottom(terminal, search)
            <==> search.direction == Direction::Left),
{
}

/// The viewport scrolls only when a search begins, and by one line. At the end of the history it
/// scrolls up, exactly if the last line held the cursor and not the origin of the search. Further up
/// in the history it scrolls down, exactly if the last line held the origin.
pub proof fn law_search_scrolls(
    was_searching: bool,
    is_searching: bool,
    display_offset: nat,
    before: Viewport,
)
    ensures
        ({
            let scroll = scroll_for_search(was_searching, is_searching, display_offset, before);
            let begins = !was_searching && is_searching;
            &&& scroll == Some(1int) <==> begins && display_offset == 0 && before.cursor_at_bottom
                && !before.origin_at_bottom
            &&& scroll == Some(-1int) <==> begins && display_offset > 0 && before.origin_at_bottom
            &&& scroll is Some ==> scroll == Some(1int) || scroll == Some(-1int)
        }),
{
}

/// A display that applied its changes leaves the window to be drawn. The viewport of the batch's tab
/// scrolls by one line, up or down, as its search requires, and nothing else changes.
pub proof fn law_display_update_steps<H, E>(
    w: WindowModel<H, E>,
    tab: int,
    was_searching: bool,
    before: Viewport,
)
    requires
        0 <= tab < w.tabs.len(),
    ensures
        ({
            let r = w.display_updated(tab, was_searching, before);
            let begins = !was_searching && w.tabs[tab].search_state.history_index is Some;
            let offset = w.tabs[tab].terminal.display_offset;
            let up = begins && offset == 0 && before.cursor_at_bottom && !before.origin_at_bottom;
            let down = begins && offset > 0 && before.origin_at_bottom;
            &&& asks_for(w, r, one_if(up || down))
            &&& up ==> asked(w, r)[0] == (EffectModel::ScrollDisplay { tab, delta: 1 })
            &&& down ==> asked(w, r)[0] == (EffectModel::ScrollDisplay { tab, delta: -1 })
            &&& r.dirty
            &&& r.display == w.display
            &&& same_appearance(w, r)
            &&& same_config(w, r)
            &&& same_events(w, r)
            &&& same_tabs(w, r)
        }),
{
}

/// Whether a batch ends with asking for a frame: something has to be drawn and can be seen, the
/// platform is ready for it, and has not asked for it itself.
pub open spec fn needs_frame<H, E>(
    w: WindowModel<H, E>,
    dirty: bool,
    redraw_requested: bool,
) -> bool {
    dirty && !w.occluded && w.display.window.has_frame && !redraw_requested
}

/// With the display up to date, a batch waits for the hints exactly if they are behind or something
/// has to be drawn. Otherwise it is done, and asks for nothing, as nothing has to be drawn.
pub proof fn law_settled_display_steps<H, E>(w: WindowModel<H, E>, redraw_requested: bool)
    ensures
        w.dirty || w.hint_highlight_dirty ==> w.step_after_display() == Step::UpdateHints,
        !w.dirty && !w.hint_highlight_dirty ==> w.step_after_display() == Step::Done,
        w.display_settled(redraw_requested) == w,
{
    if !w.hints_outdated() {
        assert(w.display_settled(redraw_requested).effects =~= w.effects);
    }
}

/// Hints that were computed are up to date, and have the window drawn exactly if they changed or it
/// was to be drawn before. The batch then ends with at most one thing asked for: a frame, exactly if
/// one is needed.
pub proof fn law_hints_steps<H, E>(w: WindowModel<H, E>, changed: bool, redraw_requested: bool)
    ensures
        ({
            let r = w.hints_updated(changed).batch_finished(redraw_requested);
            let asks = needs_frame(w, w.dirty || changed, redraw_requested);
            &&& !r.hint_highlight_dirty
            &&& r.event_queue == w.event_queue
            &&& r.dirty == (w.dirty || changed)
            &&& r.display == w.display
            &&& asks_for(w, r, one_if(asks))
            &&& asks ==> asked(w, r)[0] == EffectModel::RequestRedraw
            &&& same_appearance(w, r)
            &&& same_config(w, r)
            &&& same_tabs(w, r)
        }),
{
}

} // verus!
