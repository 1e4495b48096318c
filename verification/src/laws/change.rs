//! What two states of a window have in common, and what was asked for in between.

use vstd::prelude::*;

use crate::effect::EffectModel;
use crate::tab::TabModel;
use crate::window_context::WindowModel;

verus! {

/// What was asked for from `before` to `after`, oldest first.
pub open spec fn asked<H, E>(before: WindowModel<H, E>, after: WindowModel<H, E>) -> Seq<
    EffectModel,
> {
    after.effects.subrange(before.effects.len() as int, after.effects.len() as int)
}

/// What was asked for before `before` still is, and `n` effects came after it.
pub open spec fn asks_for<H, E>(
    before: WindowModel<H, E>,
    after: WindowModel<H, E>,
    n: int,
) -> bool {
    &&& after.effects.len() == before.effects.len() + n
    &&& forall|i: int|
        0 <= i < before.effects.len() ==> #[trigger] after.effects[i] == before.effects[i]
}

/// Wherever `first` and `second` stand in `effects`, `first` comes before `second`.
pub open spec fn in_order(
    effects: Seq<EffectModel>,
    first: EffectModel,
    second: EffectModel,
) -> bool {
    forall|i: int, j: int|
        0 <= i < effects.len() && 0 <= j < effects.len() && effects[i] == first && effects[j]
            == second ==> i < j
}

/// One for what holds, and nothing for what does not.
pub open spec fn one_if(condition: bool) -> int {
    if condition {
        1
    } else {
        0
    }
}

/// The platform's side of the display is the same, apart from the title.
pub open spec fn same_platform<H, E>(before: WindowModel<H, E>, after: WindowModel<H, E>) -> bool {
    &&& after.display.window.id == before.display.window.id
    &&& after.display.window.has_frame == before.display.window.has_frame
    &&& after.display.window.macos == before.display.window.macos
    &&& after.display.size_info.columns == before.display.size_info.columns
    &&& after.display.size_info.screen_lines == before.display.size_info.screen_lines
}

/// The window is shown in the same way.
pub open spec fn same_appearance<H, E>(
    before: WindowModel<H, E>,
    after: WindowModel<H, E>,
) -> bool {
    &&& after.tab_bar_hidden == before.tab_bar_hidden
    &&& after.occluded == before.occluded
    &&& after.preserve_title == before.preserve_title
    &&& after.drag_state == before.drag_state
}

/// The configuration and its overrides are the same.
pub open spec fn same_config<H, E>(before: WindowModel<H, E>, after: WindowModel<H, E>) -> bool {
    &&& after.window_config == before.window_config
    &&& after.config == before.config
}

/// The same events wait, and the hints are as far behind.
pub open spec fn same_events<H, E>(before: WindowModel<H, E>, after: WindowModel<H, E>) -> bool {
    &&& after.event_queue == before.event_queue
    &&& after.hint_highlight_dirty == before.hint_highlight_dirty
}

/// The same drawing and the same changes of the display wait.
pub open spec fn same_pending<H, E>(before: WindowModel<H, E>, after: WindowModel<H, E>) -> bool {
    &&& after.dirty == before.dirty
    &&& after.display.update_pending == before.display.update_pending
}

/// The tabs are the same, and so is the active one.
pub open spec fn same_tabs<H, E>(before: WindowModel<H, E>, after: WindowModel<H, E>) -> bool {
    &&& after.tabs == before.tabs
    &&& after.active_tab == before.active_tab
}

/// Nothing changed but the tabs, the title, what is pending and what was asked for.
pub open spec fn rest_kept<H, E>(before: WindowModel<H, E>, after: WindowModel<H, E>) -> bool {
    &&& same_platform(before, after)
    &&& same_appearance(before, after)
    &&& same_config(before, after)
    &&& same_events(before, after)
}

/// A change of the tabs leaves the window to be drawn on a display that has changes to apply, and
/// nothing else changed but the title and what was asked for.
pub open spec fn tabs_changed<H, E>(before: WindowModel<H, E>, after: WindowModel<H, E>) -> bool {
    &&& after.dirty
    &&& after.display.update_pending
    &&& rest_kept(before, after)
}

/// The two tabs differ in nothing but the title.
pub open spec fn same_but_title<H>(a: TabModel<H>, b: TabModel<H>) -> bool {
    &&& a.id == b.id
    &&& a.terminal == b.terminal
    &&& a.handle == b.handle
    &&& a.search_state == b.search_state
    &&& a.master_fd == b.master_fd
    &&& a.shell_pid == b.shell_pid
}

/// The two tabs differ in nothing but what is read of their terminals.
pub open spec fn same_but_terminal<H>(a: TabModel<H>, b: TabModel<H>) -> bool {
    &&& a.id == b.id
    &&& a.title == b.title
    &&& a.handle == b.handle
    &&& a.search_state == b.search_state
    &&& a.master_fd == b.master_fd
    &&& a.shell_pid == b.shell_pid
}

/// The two tabs differ in nothing but the focus of their terminals.
pub open spec fn same_but_focus<H>(a: TabModel<H>, b: TabModel<H>) -> bool {
    &&& same_but_terminal(a, b)
    &&& a.terminal.mode == b.terminal.mode
    &&& a.terminal.screen_lines == b.terminal.screen_lines
    &&& a.terminal.columns == b.terminal.columns
    &&& a.terminal.cursor_line == b.terminal.cursor_line
    &&& a.terminal.vi_cursor_line == b.terminal.vi_cursor_line
    &&& a.terminal.display_offset == b.terminal.display_offset
}

/// The two tabs differ in nothing but the size of their terminals.
pub open spec fn same_but_size<H>(a: TabModel<H>, b: TabModel<H>) -> bool {
    &&& same_but_terminal(a, b)
    &&& a.terminal.is_focused == b.terminal.is_focused
    &&& a.terminal.mode == b.terminal.mode
    &&& a.terminal.cursor_line == b.terminal.cursor_line
    &&& a.terminal.vi_cursor_line == b.terminal.vi_cursor_line
    &&& a.terminal.display_offset == b.terminal.display_offset
}

} // verus!
