//! Laws of the focus.

use vstd::prelude::*;

use crate::effect::EffectModel;
use crate::laws::change::{asked, asks_for, one_if};
use crate::laws::tabs::{law_index_of, law_index_of_distinct};
use crate::tab::TabModel;
use crate::window_context::WindowModel;

verus! {

/// No tab but the active one has the focus.
pub open spec fn only_active_focused<H, E>(w: WindowModel<H, E>) -> bool {
    forall|i: int|
        0 <= i < w.tabs.len() && i != w.active_tab ==> !(#[trigger] w.tabs[i]).terminal.is_focused
}

/// Selecting a tab hands it the focus that the active tab had, so that still at most one tab has
/// it.
pub proof fn law_select_moves_focus<H, E>(w: WindowModel<H, E>, index: int)
    requires
        w.has_active_tab(),
        0 <= index,
    ensures
        only_active_focused(w) ==> only_active_focused(w.tab_selected(index)),
        index < w.tabs.len() ==> w.tab_selected(index).active_tab == index,
        w.tab_selected(index).active().terminal.is_focused == w.active().terminal.is_focused,
{
}

/// A new tab takes over the focus that the active tab had, whatever its terminal started with.
/// Where no tab is active, it keeps the focus that its terminal started with.
pub proof fn law_create_moves_focus<H, E>(w: WindowModel<H, E>, tab: TabModel<H>)
    requires
        0 <= w.active_tab <= w.tabs.len(),
    ensures
        only_active_focused(w) ==> only_active_focused(w.tab_added(tab)),
        w.has_active_tab() ==> w.tab_added(tab).active() == tab.with_focus(
            w.active().terminal.is_focused,
        ),
        !w.has_active_tab() ==> w.tab_added(tab).active() == tab,
{
}

/// Reordering, and closing a tab that is not active, leave the focus where it is. After the active
/// tab is closed, no tab has the focus.
pub proof fn law_focus_stays<H, E>(w: WindowModel<H, E>, from: int, to: int, id: usize)
    requires
        w.has_active_tab(),
        only_active_focused(w),
        0 <= from,
        0 <= to,
    ensures
        only_active_focused(w.tab_reordered(from, to)),
        w.tab_reordered(from, to).active().terminal.is_focused == w.active().terminal.is_focused,
        only_active_focused(w.tab_closed(id)),
        w.active().id != id ==> w.tab_closed(id).active().terminal.is_focused
            == w.active().terminal.is_focused,
        w.ids_distinct() && w.active().id == id ==> forall|i: int|
            0 <= i < w.tab_closed(id).tabs.len() ==> !(#[trigger] w.tab_closed(
                id,
            ).tabs[i]).terminal.is_focused,
{
    law_index_of(w, id);
    if w.ids_distinct() {
        law_index_of_distinct(w, w.active_tab);
    }
}

/// The program in `tab` asked to hear of changes of the focus.
pub open spec fn wants_focus_reports<H>(tab: TabModel<H>) -> bool {
    tab.terminal.mode & 0x800u32 == 0x800u32
}

/// What a program is sent when its terminal loses the focus: escape, `[` and `O`.
pub open spec fn focus_lost(tab: int) -> EffectModel {
    EffectModel::Notify { tab, bytes: seq![0x1bu8, 0x5bu8, 0x4fu8] }
}

/// What a program is sent when its terminal gains the focus: escape, `[` and `I`.
pub open spec fn focus_gained(tab: int) -> EffectModel {
    EffectModel::Notify { tab, bytes: seq![0x1bu8, 0x5bu8, 0x49u8] }
}

/// Selecting a tab in place of another tells the program in the old one that it lost the focus if
/// and only if it had the focus and asked for such reports, and the program in the new one that it
/// gained the focus if and only if there was one to gain and that program asked for such reports.
/// Nothing is sent to any other tab.
pub proof fn law_select_reports_focus<H, E>(w: WindowModel<H, E>, index: int)
    requires
        0 <= w.active_tab < w.tabs.len(),
        0 <= index < w.tabs.len(),
        index != w.active_tab,
    ensures
        ({
            let r = w.tab_selected(index);
            let old = w.active_tab;
            let focused = w.tabs[old].terminal.is_focused;
            let lost = focused && wants_focus_reports(w.tabs[old]);
            let gained = focused && wants_focus_reports(w.tabs[index]);
            &&& asked(w, r).contains(focus_lost(old)) <==> lost
            &&& asked(w, r).contains(focus_gained(index)) <==> gained
            &&& forall|i: int|
                0 <= i < asked(w, r).len() && #[trigger] asked(w, r)[i] is Notify ==> {
                    ||| lost && asked(w, r)[i] == focus_lost(old)
                    ||| gained && asked(w, r)[i] == focus_gained(index)
                }
        }),
{
    law_select_focus_steps(w, index);
    let r = w.tab_selected(index);
    let a = asked(w, r);
    let focused = w.tabs[w.active_tab].terminal.is_focused;
    let lost = focused && wants_focus_reports(w.tabs[w.active_tab]);
    let gained = focused && wants_focus_reports(w.tabs[index]);
    if lost {
        assert(a.contains(a[1]));
    }
    if gained {
        assert(a.contains(a[2 + one_if(lost)]));
    }
}

/// Selecting takes the focus from the active tab, tells its program, passes the focus on to the
/// selected tab, and tells that program, in this order. What else is asked for concerns the display
/// and the title.
pub proof fn law_select_focus_steps<H, E>(w: WindowModel<H, E>, index: int)
    requires
        0 <= w.active_tab < w.tabs.len(),
        0 <= index < w.tabs.len(),
    ensures
        ({
            let r = w.tab_selected(index);
            let old = w.active_tab;
            let focused = w.tabs[old].terminal.is_focused;
            let lost = focused && wants_focus_reports(w.tabs[old]);
            let gained = focused && wants_focus_reports(w.tabs[index]);
            let follows = !w.preserve_title && w.config.dynamic_title;
            let passed = 1 + one_if(lost);
            let done = passed + 1 + one_if(gained);
            &&& asks_for(w, r, done + 2 + one_if(follows))
            &&& asked(w, r)[0] == (EffectModel::SetTerminalFocus { tab: old, focused: false })
            &&& lost ==> asked(w, r)[1] == focus_lost(old)
            &&& asked(w, r)[passed] == (EffectModel::SetTerminalFocus { tab: index, focused })
            &&& gained ==> asked(w, r)[passed + 1] == focus_gained(index)
            &&& forall|i: int|
                done <= i < asked(w, r).len() ==> {
                    let e = #[trigger] asked(w, r)[i];
                    e is MarkFullyDamaged || e is RequestDisplayUpdate || e is SetTitle
                }
        }),
{
}

} // verus!
