//! Laws of windows that were just opened.

use vstd::prelude::*;

use crate::display::{ConfigModel, DisplayModel, WindowOptions};
use crate::effect::EffectModel;
use crate::laws::change::{
    asked, asks_for, one_if, rest_kept, same_appearance, same_config, same_events, same_pending,
    same_platform, same_tabs,
};
use crate::laws::decimal::{law_numbered_title, writes_number};
use crate::tab::{fresh_tab, Direction, Pty, TabModel};
use crate::window_context::WindowModel;

verus! {

/// The window has one tab, `tab`, and nothing else yet: no events, no hints, no drag, a tab bar, and
/// no overrides.
pub open spec fn starts_with<H, E>(
    w: WindowModel<H, E>,
    display: DisplayModel,
    config: ConfigModel,
    tab: TabModel<H>,
) -> bool {
    &&& w.tabs.len() == 1
    &&& w.tabs[0] == tab
    &&& w.active_tab == 0
    &&& w.display == display
    &&& w.config == config
    &&& w.window_config.len() == 0
    &&& w.event_queue.len() == 0
    &&& w.drag_state is Idle
    &&& !w.hint_highlight_dirty
    &&& !w.occluded
    &&& !w.tab_bar_hidden
}

/// A window that shows an existing tab starts with that tab, has not been drawn upon, keeps no title
/// and asks for nothing.
pub proof fn law_shown_window<H, E>(display: DisplayModel, config: ConfigModel, tab: TabModel<H>)
    ensures
        ({
            let w = WindowModel::<H, E>::showing(display, config, tab);
            &&& starts_with(w, display, config, tab)
            &&& !w.dirty
            &&& !w.preserve_title
            &&& w.effects.len() == 0
        }),
{
}

/// A window that is opened with a new tab keeps its title exactly if one was asked for, and starts
/// the blinking of the cursor exactly if the configuration has it blink. It asks for nothing else.
pub proof fn law_opened_window<H, E>(
    display: DisplayModel,
    config: ConfigModel,
    options: WindowOptions,
    tab: TabModel<H>,
)
    ensures
        ({
            let w = WindowModel::<H, E>::opened(display, config, options, tab);
            &&& starts_with(w, display, config, tab)
            &&& !w.dirty
            &&& w.preserve_title <==> options.title is Some
            &&& w.effects.len() == one_if(config.cursor_blinking)
            &&& config.cursor_blinking ==> w.effects[0] == (EffectModel::SendCursorBlinkingChange {
                tab_id: tab.id,
            })
        }),
{
}

/// A window that takes in a tab from another one has that tab, unchanged, as its only and active
/// one. It has to be drawn, its title is not fixed, and it takes on the tab's title exactly if its
/// configuration has the title follow the tabs.
pub proof fn law_torn_off_window<H, E>(display: DisplayModel, config: ConfigModel, tab: TabModel<H>)
    ensures
        ({
            let shown = WindowModel::<H, E>::showing(display, config, tab);
            let w = (WindowModel { dirty: true, ..shown }).titled_if(
                config.dynamic_title,
                tab.title,
            );
            &&& w.tabs.len() == 1
            &&& w.tabs[0] == tab
            &&& w.active_tab == 0
            &&& w.dirty
            &&& !w.preserve_title
            &&& w.config == config
            &&& rest_kept(shown, w)
            &&& w.display.update_pending == display.update_pending
            &&& w.effects.len() == one_if(config.dynamic_title)
            &&& config.dynamic_title ==> w.effects[0] == (EffectModel::SetTitle {
                title: tab.title,
            }) && w.display.window.title == tab.title
            &&& !config.dynamic_title ==> w.display.window.title == display.window.title
        }),
{
}

/// A new tab has the identifier that it was given, is named after it, counted from one, searches
/// for nothing, and owns what the PTY brought along.
pub proof fn law_fresh_tab<H>(id: usize, pty: Pty<H>)
    ensures
        ({
            let tab = fresh_tab(id, pty);
            &&& tab.id == id
            &&& tab.terminal == pty.terminal
            &&& tab.handle == pty.handle
            &&& tab.master_fd == pty.master_fd
            &&& tab.shell_pid == pty.shell_pid
            &&& tab.search_state.history_index is None
            &&& tab.search_state.direction == Direction::Right
            &&& tab.title.len() > 9
            &&& tab.title.take(9) == seq!['T', 'e', 'r', 'm', 'i', 'n', 'a', 'l', ' ']
            &&& writes_number(tab.title.skip(9), id + 1)
        }),
{
    law_numbered_title((id + 1) as nat);
}

/// A window takes on a title exactly if it is to, asks its platform for that title and for nothing
/// else, and changes in nothing else.
pub proof fn law_titled_window<H, E>(w: WindowModel<H, E>, condition: bool, title: Seq<char>)
    ensures
        ({
            let r = w.titled_if(condition, title);
            &&& asks_for(w, r, one_if(condition))
            &&& condition ==> asked(w, r)[0] == (EffectModel::SetTitle { title })
            &&& r.display.window.title == if condition {
                title
            } else {
                w.display.window.title
            }
            &&& same_platform(w, r)
            &&& same_appearance(w, r)
            &&& same_config(w, r)
            &&& same_events(w, r)
            &&& same_pending(w, r)
            &&& same_tabs(w, r)
        }),
{
}

} // verus!
