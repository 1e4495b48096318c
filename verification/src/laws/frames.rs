//! Laws of what a frame shows and asks for.

use vstd::prelude::*;

use crate::display::TabDragState;
use crate::effect::EffectModel;
use crate::laws::change::{
    asked, asks_for, one_if, same_appearance, same_but_size, same_config, same_events, same_tabs,
};
use crate::window_context::WindowModel;

verus! {

/// The terminal of the tab at `tab` has another size than the display.
pub open spec fn misfits<H, E>(w: WindowModel<H, E>, tab: int) -> bool {
    ||| w.tabs[tab].terminal.columns != w.display.size_info.columns
    ||| w.tabs[tab].terminal.screen_lines != w.display.size_info.screen_lines
}

/// From `before` to `after`, the active tab's terminal took on the size of the display, and no tab
/// changed otherwise.
pub open spec fn active_resized<H, E>(before: WindowModel<H, E>, after: WindowModel<H, E>) -> bool {
    let tab = before.active_tab;
    &&& after.active_tab == before.active_tab
    &&& after.tabs.len() == before.tabs.len()
    &&& forall|i: int|
        0 <= i < before.tabs.len() && i != tab ==> #[trigger] after.tabs[i] == before.tabs[i]
    &&& same_but_size(after.tabs[tab], before.tabs[tab])
    &&& after.tabs[tab].terminal.columns == before.display.size_info.columns
    &&& after.tabs[tab].terminal.screen_lines == before.display.size_info.screen_lines
}

/// A window of which something can be seen has its display prepared for a frame, and counts as
/// drawn. In any case the request that led to the frame is forgotten, and nothing else changes.
pub proof fn law_draw_prepares_display<H, E>(w: WindowModel<H, E>)
    ensures
        ({
            let r = w.draw_begun();
            &&& asks_for(w, r, 1 + one_if(!w.occluded))
            &&& asked(w, r)[0] == EffectModel::ClearRedrawRequest
            &&& !w.occluded ==> asked(w, r)[1] == EffectModel::ProcessRendererUpdate
            &&& r.dirty == (w.dirty && w.occluded)
            &&& r.display == w.display
            &&& same_appearance(w, r)
            &&& same_config(w, r)
            &&& same_events(w, r)
            &&& same_tabs(w, r)
        }),
{
}

/// The last thing that a frame asks for is to draw what the window shows: the titles of its tabs
/// from left to right, its active tab, its tab bar unless that is hidden, and the tab that is
/// dragged, if one is.
pub proof fn law_frame_shows_window<H, E>(w: WindowModel<H, E>, bell_completed: bool)
    requires
        0 <= w.active_tab < w.tabs.len(),
    ensures
        ({
            let r = w.frame_drawn(bell_completed);
            let last = r.effects.last();
            let frame = last->DrawFrame_frame;
            &&& r.effects.len() > w.effects.len()
            &&& last is DrawFrame
            &&& frame.tab_titles.len() == w.tabs.len()
            &&& forall|i: int|
                0 <= i < w.tabs.len() ==> #[trigger] frame.tab_titles[i] == w.tabs[i].title
            &&& frame.active_tab == w.active_tab
            &&& frame.tab_bar_hidden == w.tab_bar_hidden
            &&& frame.drag is Some <==> w.drag_state is Dragging
            &&& w.drag_state matches TabDragState::Dragging { tab_index, current_x }
                ==> frame.drag->Some_0.0 == tab_index && frame.drag->Some_0.1 == current_x
        }),
{
}

/// A frame resizes the active tab's terminal to the display before it is drawn, exactly if it has
/// another size: its PTY is told, then the terminal and the table of damaged lines are resized. A
/// bell that still shows asks for the next frame before that, or, on a platform that is not ready,
/// leaves the window to be drawn.
pub proof fn law_frame_steps<H, E>(w: WindowModel<H, E>, bell_completed: bool)
    requires
        0 <= w.active_tab < w.tabs.len(),
    ensures
        ({
            let r = w.frame_drawn(bell_completed);
            let a = asked(w, r);
            let tab = w.active_tab;
            let size = w.display.size_info;
            let rings = !bell_completed && w.display.window.has_frame;
            let n = one_if(rings);
            &&& asks_for(w, r, n + 3 * one_if(misfits(w, tab)) + 1)
            &&& rings ==> a[0] == EffectModel::RequestRedraw
            &&& misfits(w, tab) ==> {
                &&& a[n] == (EffectModel::NotifyResize { tab, size })
                &&& a[n + 1] == (EffectModel::ResizeTerminal { tab, size })
                &&& a[n + 2] == (EffectModel::ResizeDamage { size })
            }
            &&& a.last() is DrawFrame
            &&& r.dirty == (w.dirty || (!bell_completed && !w.display.window.has_frame))
            &&& r.display == w.display
            &&& active_resized(w, r)
            &&& same_appearance(w, r)
            &&& same_config(w, r)
            &&& same_events(w, r)
        }),
{
}

/// Both steps of a frame on an unchanged display are the two steps one after the other, and an
/// occluded window takes none but the first.
pub proof fn law_frame_has_two_steps<H, E>(w: WindowModel<H, E>, bell_completed: bool)
    ensures
        w.occluded ==> w.drawn(bell_completed) == w.draw_begun(),
        !w.occluded ==> w.drawn(bell_completed) == w.draw_begun().frame_drawn(bell_completed),
{
}

} // verus!
