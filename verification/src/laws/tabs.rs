//! Laws of the tabs of a window.

use vstd::prelude::*;

use crate::display::{ConfigModel, DisplayModel, WindowOptions};
use crate::effect::EffectModel;
use crate::laws::change::{
    asked, asks_for, one_if, rest_kept, same_but_focus, same_pending, tabs_changed,
};
use crate::tab::TabModel;
use crate::window_context::{tab_ids, WindowModel};

verus! {

/// A search for an identifier leads to a tab that has it, if there is one.
pub proof fn law_index_of<H, E>(w: WindowModel<H, E>, id: usize)
    ensures
        w.index_of(id) is Some <==> w.has_tab(id),
        w.index_of(id) matches Some(i) ==> 0 <= i < w.tabs.len() && w.tabs[i].id == id,
{
    tab_ids(w.tabs).index_of_first_ensures(id);
}

/// Where no two tabs share an identifier, a tab is found at its index.
pub proof fn law_index_of_distinct<H, E>(w: WindowModel<H, E>, i: int)
    requires
        w.ids_distinct(),
        0 <= i < w.tabs.len(),
    ensures
        w.index_of(w.tabs[i].id) == Some(i),
{
    let ids = tab_ids(w.tabs);
    assert(ids[i] == w.tabs[i].id);
    law_index_of(w, w.tabs[i].id);
    let k = w.index_of(w.tabs[i].id)->Some_0;
    assert(ids[k] == ids[i]);
}

/// A search for an identifier leads to the first tab that has it.
pub proof fn law_index_of_first<H, E>(w: WindowModel<H, E>, id: usize, i: int)
    requires
        0 <= i < w.tabs.len(),
        w.tabs[i].id == id,
        forall|j: int| 0 <= j < i ==> (#[trigger] w.tabs[j]).id != id,
    ensures
        w.index_of(id) == Some(i),
        w.has_tab(id),
{
    let ids = tab_ids(w.tabs);
    assert(ids[i] == id);
    law_index_of(w, id);
    ids.index_of_first_ensures(id);
    let k = w.index_of(id)->Some_0;
    assert(ids[k] == w.tabs[k].id);
    assert(k <= i);
}

/// A search for an identifier that no tab has leads nowhere.
pub proof fn law_index_of_unknown<H, E>(w: WindowModel<H, E>, id: usize)
    requires
        forall|j: int| 0 <= j < w.tabs.len() ==> (#[trigger] w.tabs[j]).id != id,
    ensures
        w.index_of(id) is None,
        !w.has_tab(id),
{
    law_index_of(w, id);
}

/// A window has an active tab exactly if the index of the active tab is that of a tab, and it is
/// well-formed exactly if it has one as long as it has tabs, and no two tabs share an identifier.
pub proof fn law_wf<H, E>(w: WindowModel<H, E>)
    ensures
        w.has_active_tab() <==> 0 <= w.active_tab < w.tabs.len(),
        w.has_active_tab() ==> w.active() == w.tabs[w.active_tab],
        w.wf() <==> (w.tabs.len() > 0 ==> 0 <= w.active_tab < w.tabs.len()) && forall|
            i: int,
            j: int,
        |
            #![trigger w.tabs[i], w.tabs[j]]
            0 <= i < j < w.tabs.len() ==> w.tabs[i].id != w.tabs[j].id,
{
    let ids = tab_ids(w.tabs);
    assert(forall|i: int| 0 <= i < ids.len() ==> ids[i] == (#[trigger] w.tabs[i]).id);
    if w.wf() {
        assert forall|i: int, j: int|
            #![trigger w.tabs[i], w.tabs[j]]
            0 <= i < j < w.tabs.len() implies w.tabs[i].id != w.tabs[j].id by {
            assert(ids[i] != ids[j]);
        }
    }
    if forall|i: int, j: int|
        #![trigger w.tabs[i], w.tabs[j]]
        0 <= i < j < w.tabs.len() ==> w.tabs[i].id != w.tabs[j].id {
        assert forall|i: int, j: int| 0 <= i < ids.len() && 0 <= j < ids.len() && i != j implies ids[i]
            != ids[j] by {
            let _ = w.tabs[i];
            let _ = w.tabs[j];
        }
    }
}

/// A window is well-formed when it is opened.
pub proof fn law_opened_window_is_wf<H, E>(
    display: DisplayModel,
    config: ConfigModel,
    options: WindowOptions,
    tab: TabModel<H>,
)
    ensures
        WindowModel::<H, E>::showing(display, config, tab).wf(),
        WindowModel::<H, E>::showing(display, config, tab).active() == tab,
        WindowModel::<H, E>::opened(display, config, options, tab).wf(),
        WindowModel::<H, E>::opened(display, config, options, tab).active() == tab,
{
}

/// Changes of titles keep a window well-formed: one of its tabs is active, as long as it has tabs,
/// and no two tabs share an identifier.
pub proof fn law_titles_keep_wf<H, E>(w: WindowModel<H, E>, id: usize, title: Seq<char>)
    requires
        w.wf(),
    ensures
        w.tab_title_updated(id, title).wf(),
        w.tab_title_reset(id).wf(),
{
    law_index_of(w, id);
    assert(tab_ids(w.tab_title_updated(id, title).tabs) =~= tab_ids(w.tabs));
    assert(tab_ids(w.tab_title_reset(id).tabs) =~= tab_ids(w.tabs));
}

/// Closing a tab keeps a window well-formed.
pub proof fn law_close_keeps_wf<H, E>(w: WindowModel<H, E>, id: usize)
    requires
        w.wf(),
    ensures
        w.tab_closed(id).wf(),
{
    law_index_of(w, id);
    let ids = tab_ids(w.tabs);
    if let Some(i) = w.index_of(id) {
        assert(tab_ids(w.tab_closed(id).tabs) =~= ids.remove(i));
    }
}

/// Selecting a tab keeps a window well-formed.
pub proof fn law_select_keeps_wf<H, E>(w: WindowModel<H, E>, index: int)
    requires
        w.wf(),
        0 <= index,
    ensures
        w.tab_selected(index).wf(),
{
    assert(tab_ids(w.tab_selected(index).tabs) =~= tab_ids(w.tabs));
}

/// Reordering keeps a window well-formed.
pub proof fn law_reorder_keeps_wf<H, E>(w: WindowModel<H, E>, from: int, to: int)
    requires
        w.wf(),
        0 <= from,
        0 <= to,
    ensures
        w.tab_reordered(from, to).wf(),
{
    let ids = tab_ids(w.tabs);
    if from != to && from < w.tabs.len() && to < w.tabs.len() {
        let moved = tab_ids(w.tab_reordered(from, to).tabs);
        assert(moved =~= ids.remove(from).insert(to, ids[from]));
        assert forall|i: int, j: int| 0 <= i < j < moved.len() implies moved[i] != moved[j] by {
            let rest = ids.remove(from);
            assert(forall|k: int| 0 <= k < rest.len() ==> rest[k] != ids[from]);
        }
    }
}

/// A new tab whose identifier is not in use keeps a window well-formed.
pub proof fn law_adding_keeps_wf<H, E>(w: WindowModel<H, E>, tab: TabModel<H>)
    requires
        w.wf(),
        !w.has_tab(tab.id),
    ensures
        w.tab_added(tab).wf(),
{
    let ids = tab_ids(w.tabs);
    assert(tab_ids(w.tab_added(tab).tabs) =~= ids.push(tab.id));
}

/// Closing a tab other than the active one leaves the same tab active.
pub proof fn law_close_keeps_active_tab<H, E>(w: WindowModel<H, E>, id: usize)
    requires
        w.has_active_tab(),
        w.active().id != id,
    ensures
        w.tab_closed(id).has_active_tab(),
        w.tab_closed(id).active() == w.active(),
{
    law_index_of(w, id);
}

/// Closing the active tab makes its right neighbour active, or, where there is none, its left
/// neighbour. Closing the only tab leaves a window without tabs.
pub proof fn law_close_active_tab<H, E>(w: WindowModel<H, E>)
    requires
        w.wf(),
        w.has_active_tab(),
    ensures
        ({
            let closed = w.tab_closed(w.active().id);
            &&& w.tabs.len() == 1 ==> closed.tabs.len() == 0
            &&& w.active_tab + 1 < w.tabs.len() ==> closed.active() == w.tabs[w.active_tab + 1]
            &&& w.tabs.len() > 1 && w.active_tab + 1 == w.tabs.len() ==> closed.active()
                == w.tabs[w.active_tab - 1]
        }),
{
    law_index_of_distinct(w, w.active_tab);
}

/// Closing removes the tab with the given identifier and no other, and keeps the others in order.
pub proof fn law_close_removes_one_tab<H, E>(w: WindowModel<H, E>, id: usize, other: usize)
    requires
        other != id,
    ensures
        w.ids_distinct() ==> !w.tab_closed(id).has_tab(id),
        w.tab_closed(id).has_tab(other) == w.has_tab(other),
        w.index_of(id) matches Some(i) ==> w.tab_closed(id).tabs == w.tabs.remove(i),
        w.has_tab(id) ==> w.tab_closed(id).tabs.len() == w.tabs.len() - 1,
        !w.has_tab(id) ==> w.tab_closed(id) == w,
{
    law_index_of(w, id);
    let ids = tab_ids(w.tabs);
    if let Some(i) = w.index_of(id) {
        let rest = tab_ids(w.tab_closed(id).tabs);
        assert(rest =~= ids.remove(i));
        assert(ids[i] == id);
        if w.has_tab(other) {
            let k = choose|k: int| 0 <= k < ids.len() && ids[k] == other;
            if k < i {
                assert(rest[k] == other);
            } else {
                assert(rest[k - 1] == other);
            }
        }
        if rest.contains(other) {
            let k = choose|k: int| 0 <= k < rest.len() && rest[k] == other;
            assert(ids[if k < i { k } else { k + 1 }] == other);
        }
        if w.ids_distinct() && rest.contains(id) {
            let k = choose|k: int| 0 <= k < rest.len() && rest[k] == id;
            assert(ids[if k < i { k } else { k + 1 }] == id);
        }
    }
}

/// Reordering leaves the same tab active.
pub proof fn law_reorder_keeps_active_tab<H, E>(w: WindowModel<H, E>, from: int, to: int)
    requires
        w.has_active_tab(),
        0 <= from,
        0 <= to,
    ensures
        w.tab_reordered(from, to).has_active_tab(),
        w.tab_reordered(from, to).active() == w.active(),
{
}

/// Reordering loses no tab and adds none.
pub proof fn law_reorder_keeps_tabs<H, E>(w: WindowModel<H, E>, from: int, to: int)
    requires
        0 <= from,
        0 <= to,
    ensures
        w.tab_reordered(from, to).tabs.to_multiset() =~= w.tabs.to_multiset(),
{
    if from != to && from < w.tabs.len() && to < w.tabs.len() {
        let rest = w.tabs.remove(from);
        vstd::seq_lib::to_multiset_remove(w.tabs, from);
        vstd::seq_lib::to_multiset_insert(rest, to, w.tabs[from]);
        w.tabs.to_multiset_ensures();
    }
}

/// Moving a tab back undoes its move.
pub proof fn law_reorder_back<H, E>(w: WindowModel<H, E>, from: int, to: int)
    requires
        0 <= from,
        0 <= to,
    ensures
        w.tab_reordered(from, to).tab_reordered(to, from).tabs == w.tabs,
        w.tab_reordered(from, to).tab_reordered(to, from).active_tab == w.active_tab,
{
    assert(w.tab_reordered(from, to).tab_reordered(to, from).tabs =~= w.tabs);
}

/// Selecting the active tab changes no tab.
pub proof fn law_select_active_tab<H, E>(w: WindowModel<H, E>)
    requires
        w.has_active_tab(),
    ensures
        w.tab_selected(w.active_tab).tabs == w.tabs,
        w.tab_selected(w.active_tab).active_tab == w.active_tab,
{
    assert(w.tab_selected(w.active_tab).tabs =~= w.tabs);
}

/// Closing a tab that was just created leaves the tabs that were there before, except that the
/// focus has left them. The last of them is active.
pub proof fn law_create_then_close<H, E>(w: WindowModel<H, E>, tab: TabModel<H>)
    requires
        0 <= w.active_tab <= w.tabs.len(),
        !w.has_tab(tab.id),
    ensures
        w.has_active_tab() ==> w.tab_added(tab).tab_closed(tab.id).tabs == w.tabs.update(
            w.active_tab,
            w.active().with_focus(false),
        ),
        !w.has_active_tab() ==> w.tab_added(tab).tab_closed(tab.id).tabs == w.tabs,
        w.tabs.len() > 0 ==> w.tab_added(tab).tab_closed(tab.id).active_tab == w.tabs.len() - 1,
{
    let added = w.tab_added(tab);
    let n = w.tabs.len() as int;
    assert(tab_ids(added.tabs) =~= tab_ids(w.tabs).push(tab.id));
    law_index_of(added, tab.id);
    assert(tab_ids(added.tabs)[n] == tab.id);
    let i = added.index_of(tab.id)->Some_0;
    if i < n {
        assert(tab_ids(w.tabs)[i] == tab.id);
    }
    let closed = added.tab_closed(tab.id).tabs;
    if w.has_active_tab() {
        assert(closed =~= w.tabs.update(w.active_tab, w.active().with_focus(false)));
    } else {
        assert(closed =~= w.tabs);
    }
}

/// The place of the element at `i` among those that are left without the one at `gone`.
pub open spec fn place_without(i: int, gone: int) -> int {
    if i > gone {
        i - 1
    } else {
        i
    }
}

/// A move takes one tab out of its place and puts it in at another. The other tabs keep their
/// order, and the active one its place among them.
pub proof fn law_reorder_moves_one_tab<H, E>(w: WindowModel<H, E>, from: int, to: int)
    requires
        0 <= from < w.tabs.len(),
        0 <= to < w.tabs.len(),
    ensures
        ({
            let r = w.tab_reordered(from, to);
            &&& r.tabs.len() == w.tabs.len()
            &&& r.tabs[to] == w.tabs[from]
            &&& r.tabs.remove(to) == w.tabs.remove(from)
            &&& w.active_tab == from ==> r.active_tab == to
            &&& w.active_tab != from ==> r.active_tab != to && place_without(r.active_tab, to)
                == place_without(w.active_tab, from)
        }),
{
    let r = w.tab_reordered(from, to);
    assert(r.tabs.remove(to) =~= w.tabs.remove(from));
}

/// After a move, any two other tabs stand in the same order as before, and the tabs outside the way
/// of the move stand where they stood.
pub proof fn law_reorder_keeps_order<H, E>(w: WindowModel<H, E>, from: int, to: int, a: int, b: int)
    requires
        0 <= from < w.tabs.len(),
        0 <= to < w.tabs.len(),
        0 <= a < b < w.tabs.len(),
        a != from,
        b != from,
    ensures
        exists|i: int, j: int|
            #![trigger w.tab_reordered(from, to).tabs[i], w.tab_reordered(from, to).tabs[j]]
            0 <= i < j < w.tabs.len() && i != to && j != to && w.tab_reordered(from, to).tabs[i]
                == w.tabs[a] && w.tab_reordered(from, to).tabs[j] == w.tabs[b],
        a < from && a < to ==> w.tab_reordered(from, to).tabs[a] == w.tabs[a],
        b > from && b > to ==> w.tab_reordered(from, to).tabs[b] == w.tabs[b],
        from < a <= to ==> w.tab_reordered(from, to).tabs[a - 1] == w.tabs[a],
        to <= a < from ==> w.tab_reordered(from, to).tabs[a + 1] == w.tabs[a],
{
    let r = w.tab_reordered(from, to).tabs;
    let x = place_without(a, from);
    let y = place_without(b, from);
    let i = if x >= to {
        x + 1
    } else {
        x
    };
    let j = if y >= to {
        y + 1
    } else {
        y
    };
    assert(r[i] == w.tabs[a]);
    assert(r[j] == w.tabs[b]);
}

/// A move has the window drawn again on an updated display, and changes nothing else. A move to
/// the same place, or from or to where no tab is, changes nothing at all.
pub proof fn law_reorder_rest<H, E>(w: WindowModel<H, E>, from: int, to: int)
    requires
        0 <= from,
        0 <= to,
    ensures
        ({
            let r = w.tab_reordered(from, to);
            if from != to && from < w.tabs.len() && to < w.tabs.len() {
                &&& tabs_changed(w, r)
                &&& r.display.window.title == w.display.window.title
                &&& asks_for(w, r, 1)
                &&& asked(w, r)[0] == EffectModel::RequestDisplayUpdate
            } else {
                r == w
            }
        }),
{
}

/// Closing takes the first tab with the identifier out. Of the others, the same one stays active;
/// for an active tab that was closed, the one that moved into its place, or the last one.
pub proof fn law_close_by_index<H, E>(w: WindowModel<H, E>, id: usize, i: int)
    requires
        0 <= i < w.tabs.len(),
        w.tabs[i].id == id,
        forall|j: int| 0 <= j < i ==> (#[trigger] w.tabs[j]).id != id,
        0 <= w.active_tab,
    ensures
        ({
            let r = w.tab_closed(id);
            &&& r.tabs.len() == w.tabs.len() - 1
            &&& forall|j: int| 0 <= j < i ==> #[trigger] r.tabs[j] == w.tabs[j]
            &&& forall|j: int| i <= j < r.tabs.len() ==> #[trigger] r.tabs[j] == w.tabs[j + 1]
            &&& r.tabs.len() == 0 ==> r.active_tab == w.active_tab
            &&& r.tabs.len() > 0 && w.active_tab < i ==> r.active_tab == w.active_tab
            &&& r.tabs.len() > 0 && i < w.active_tab < w.tabs.len() ==> r.active_tab
                == w.active_tab - 1
            &&& r.tabs.len() > 0 && i == w.active_tab && i < r.tabs.len() ==> r.active_tab == i
            &&& r.tabs.len() > 0 && i == w.active_tab && i == r.tabs.len() ==> r.active_tab == i - 1
            &&& r.tabs.len() > 0 && w.active_tab >= w.tabs.len() ==> r.active_tab == r.tabs.len()
                - 1
        }),
{
    law_index_of_first(w, id, i);
}

/// Closing has the rest of the tabs drawn again in full on an updated display, under the title of
/// the active one, if the title follows the tabs. Closing the only tab, or none, changes nothing
/// else.
pub proof fn law_close_rest<H, E>(w: WindowModel<H, E>, id: usize)
    requires
        0 <= w.active_tab,
    ensures
        ({
            let r = w.tab_closed(id);
            let follows = !w.preserve_title && w.config.dynamic_title;
            let known = exists|j: int| 0 <= j < w.tabs.len() && (#[trigger] w.tabs[j]).id == id;
            &&& !known ==> r == w
            &&& known && w.tabs.len() == 1 ==> {
                &&& rest_kept(w, r)
                &&& same_pending(w, r)
                &&& r.display.window.title == w.display.window.title
                &&& asks_for(w, r, 0)
            }
            &&& known && w.tabs.len() > 1 ==> {
                let title = r.tabs[r.active_tab].title;
                &&& tabs_changed(w, r)
                &&& asks_for(w, r, 2 + one_if(follows))
                &&& asked(w, r)[0] == EffectModel::MarkFullyDamaged
                &&& asked(w, r)[1] == EffectModel::RequestDisplayUpdate
                &&& follows ==> asked(w, r)[2] == (EffectModel::SetTitle { title })
                &&& r.display.window.title == if follows {
                    title
                } else {
                    w.display.window.title
                }
            }
        }),
{
    law_index_of(w, id);
    if exists|j: int| 0 <= j < w.tabs.len() && (#[trigger] w.tabs[j]).id == id {
        let j = choose|j: int| 0 <= j < w.tabs.len() && (#[trigger] w.tabs[j]).id == id;
        assert(tab_ids(w.tabs)[j] == id);
    }
}

/// Selecting makes a tab the active one, and changes nothing of any tab but the focus.
pub proof fn law_select_by_index<H, E>(w: WindowModel<H, E>, index: int)
    requires
        0 <= w.active_tab < w.tabs.len(),
        0 <= index < w.tabs.len(),
    ensures
        ({
            let r = w.tab_selected(index);
            &&& r.active_tab == index
            &&& r.tabs.len() == w.tabs.len()
            &&& forall|i: int|
                0 <= i < w.tabs.len() ==> {
                    &&& same_but_focus(#[trigger] r.tabs[i], w.tabs[i])
                    &&& i != index && i != w.active_tab ==> r.tabs[i].terminal.is_focused
                        == w.tabs[i].terminal.is_focused
                }
            &&& r.tabs[index].terminal.is_focused == w.tabs[w.active_tab].terminal.is_focused
            &&& index != w.active_tab ==> !r.tabs[w.active_tab].terminal.is_focused
        }),
{
}

/// Selecting has the tab drawn in full on an updated display, under its own title, if the title
/// follows the tabs. An index without a tab selects nothing.
pub proof fn law_select_rest<H, E>(w: WindowModel<H, E>, index: int)
    requires
        0 <= index,
    ensures
        ({
            let r = w.tab_selected(index);
            let follows = !w.preserve_title && w.config.dynamic_title;
            let n = asked(w, r).len() - one_if(follows);
            if index < w.tabs.len() {
                &&& tabs_changed(w, r)
                &&& n >= 4
                &&& asked(w, r)[n - 2] == EffectModel::MarkFullyDamaged
                &&& asked(w, r)[n - 1] == EffectModel::RequestDisplayUpdate
                &&& follows ==> asked(w, r)[n] == (EffectModel::SetTitle {
                    title: w.tabs[index].title,
                })
                &&& r.display.window.title == if follows {
                    w.tabs[index].title
                } else {
                    w.display.window.title
                }
            } else {
                r == w
            }
        }),
{
}

/// Creating a tab puts it behind the others and selects it, as if it had been there.
pub proof fn law_create_selects<H, E>(w: WindowModel<H, E>, tab: TabModel<H>)
    requires
        0 <= w.active_tab <= w.tabs.len(),
    ensures
        ({
            let r = w.tab_added(tab);
            &&& r == (WindowModel { tabs: w.tabs.push(tab), ..w }).tab_selected(
                w.tabs.len() as int,
            )
            &&& r.tabs.len() == w.tabs.len() + 1
            &&& r.active_tab == w.tabs.len()
            &&& same_but_focus(r.tabs[r.active_tab], tab)
            &&& forall|i: int|
                0 <= i < w.tabs.len() ==> same_but_focus(#[trigger] r.tabs[i], w.tabs[i])
            &&& tabs_changed(w, r)
        }),
{
}

} // verus!
