//! Laws of the identifiers of tabs.

use vstd::prelude::*;

use crate::laws::events::tabs_in_place;
use crate::laws::tabs::law_index_of;
use crate::tab::TabModel;
use crate::tab_id::tab_id_after;
use crate::tabs::index_after_move;
use crate::window_context::{tab_ids, WindowModel};

verus! {

/// The identifier that a counter at `first` hands out after `n` others.
pub open spec fn nth_tab_id(first: usize, n: nat) -> usize
    decreases n,
{
    if n == 0 {
        first
    } else {
        tab_id_after(nth_tab_id(first, (n - 1) as nat))
    }
}

/// A counter counts up by one, and starts over once it has gone through all of `usize`.
pub proof fn law_tab_ids_count_up(first: usize, n: nat)
    ensures
        nth_tab_id(first, n) == (first + n) % (usize::MAX + 1),
    decreases n,
{
    let m: int = usize::MAX + 1;
    if n == 0 {
        vstd::arithmetic::div_mod::lemma_small_mod(first as nat, m as nat);
    } else {
        law_tab_ids_count_up(first, (n - 1) as nat);
        let r: int = (first + n - 1) % m;
        vstd::arithmetic::div_mod::lemma_mod_bound(first + n - 1, m);
        vstd::arithmetic::div_mod::lemma_add_mod_noop(first + n - 1, 1, m);
        vstd::arithmetic::div_mod::lemma_small_mod(1, m as nat);
        if r == usize::MAX {
            vstd::arithmetic::div_mod::lemma_mod_self_0(m);
        } else {
            vstd::arithmetic::div_mod::lemma_small_mod((r + 1) as nat, m as nat);
        }
    }
}

/// Identifiers that one counter hands out differ, until it has gone through all of `usize`.
pub proof fn law_tab_ids_differ(first: usize, i: nat, j: nat)
    requires
        i < j <= i + usize::MAX,
    ensures
        nth_tab_id(first, i) != nth_tab_id(first, j),
{
    law_tab_ids_count_up(first, i);
    law_tab_ids_count_up(first, j);
    let m: int = usize::MAX + 1;
    if nth_tab_id(first, i) == nth_tab_id(first, j) {
        vstd::arithmetic::div_mod::lemma_mod_equivalence(first + j, first + i, m);
        vstd::arithmetic::div_mod::lemma_small_mod((j - i) as nat, m as nat);
    }
}

/// No two tabs of `windows` share an identifier.
pub open spec fn ids_unique<H, E>(windows: Seq<WindowModel<H, E>>) -> bool {
    forall|i: int, a: int, j: int, b: int|
        #![trigger windows[i].tabs[a], windows[j].tabs[b]]
        0 <= i < windows.len() && 0 <= a < windows[i].tabs.len() && 0 <= j < windows.len() && 0 <= b
            < windows[j].tabs.len() && windows[i].tabs[a].id == windows[j].tabs[b].id ==> i == j
            && a == b
}

/// The counter at `next` has handed out the identifiers of all tabs of `windows`.
pub open spec fn ids_below<H, E>(windows: Seq<WindowModel<H, E>>, next: usize) -> bool {
    forall|i: int, a: int|
        #![trigger windows[i].tabs[a]]
        0 <= i < windows.len() && 0 <= a < windows[i].tabs.len() ==> windows[i].tabs[a].id < next
}

/// Identifiers stay unique across all windows when a window creates a tab with the counter's next
/// identifier.
pub proof fn law_create_keeps_ids_unique<H, E>(
    windows: Seq<WindowModel<H, E>>,
    k: int,
    next: usize,
    tab: TabModel<H>,
)
    requires
        ids_unique(windows),
        ids_below(windows, next),
        0 <= k < windows.len(),
        tab.id == next,
        next < usize::MAX,
    ensures
        ids_unique(windows.update(k, windows[k].tab_added(tab))),
        ids_below(windows.update(k, windows[k].tab_added(tab)), tab_id_after(next)),
{
    let after = windows.update(k, windows[k].tab_added(tab));
    assert(forall|a: int|
        0 <= a < windows[k].tabs.len() ==> after[k].tabs[a].id == #[trigger] windows[k].tabs[a].id);
    assert(after[k].tabs[windows[k].tabs.len() as int].id == next);
    assert forall|i: int, a: int, j: int, b: int|
        #![trigger after[i].tabs[a], after[j].tabs[b]]
        0 <= i < after.len() && 0 <= a < after[i].tabs.len() && 0 <= j < after.len() && 0 <= b
            < after[j].tabs.len() && after[i].tabs[a].id == after[j].tabs[b].id implies i == j && a
        == b by {
        let _ = windows[i].tabs[a];
        let _ = windows[j].tabs[b];
    }
    assert forall|i: int, a: int|
        #![trigger after[i].tabs[a]]
        0 <= i < after.len() && 0 <= a < after[i].tabs.len() implies after[i].tabs[a].id
        < tab_id_after(next) by {
        let _ = windows[i].tabs[a];
    }
}

/// Identifiers stay unique across all windows when another window is opened with a new tab that
/// has the counter's next identifier.
pub proof fn law_open_keeps_ids_unique<H, E>(
    windows: Seq<WindowModel<H, E>>,
    next: usize,
    opened: WindowModel<H, E>,
)
    requires
        ids_unique(windows),
        ids_below(windows, next),
        opened.tabs.len() == 1,
        opened.tabs[0].id == next,
        next < usize::MAX,
    ensures
        ids_unique(windows.push(opened)),
        ids_below(windows.push(opened), tab_id_after(next)),
{
    let after = windows.push(opened);
    assert forall|i: int, a: int, j: int, b: int|
        #![trigger after[i].tabs[a], after[j].tabs[b]]
        0 <= i < after.len() && 0 <= a < after[i].tabs.len() && 0 <= j < after.len() && 0 <= b
            < after[j].tabs.len() && after[i].tabs[a].id == after[j].tabs[b].id implies i == j && a
        == b by {
        let _ = windows[i].tabs[a];
        let _ = windows[j].tabs[b];
    }
    assert forall|i: int, a: int|
        #![trigger after[i].tabs[a]]
        0 <= i < after.len() && 0 <= a < after[i].tabs.len() implies after[i].tabs[a].id
        < tab_id_after(next) by {
        let _ = windows[i].tabs[a];
    }
}

/// Identifiers stay unique across all windows when a tab is closed.
pub proof fn law_close_keeps_ids_unique<H, E>(
    windows: Seq<WindowModel<H, E>>,
    k: int,
    next: usize,
    id: usize,
)
    requires
        ids_unique(windows),
        ids_below(windows, next),
        0 <= k < windows.len(),
    ensures
        ids_unique(windows.update(k, windows[k].tab_closed(id))),
        ids_below(windows.update(k, windows[k].tab_closed(id)), next),
{
    let after = windows.update(k, windows[k].tab_closed(id));
    law_index_of(windows[k], id);
    let gone = match windows[k].index_of(id) {
        Some(i) => i,
        None => windows[k].tabs.len() as int,
    };
    let back = |i: int, a: int| if i == k && a >= gone { a + 1 } else { a };
    assert forall|i: int, a: int|
        #![trigger after[i].tabs[a]]
        0 <= i < after.len() && 0 <= a < after[i].tabs.len() implies after[i].tabs[a]
        == windows[i].tabs[back(i, a)] && 0 <= back(i, a) < windows[i].tabs.len() by {}
    assert forall|i: int, a: int, j: int, b: int|
        #![trigger after[i].tabs[a], after[j].tabs[b]]
        0 <= i < after.len() && 0 <= a < after[i].tabs.len() && 0 <= j < after.len() && 0 <= b
            < after[j].tabs.len() && after[i].tabs[a].id == after[j].tabs[b].id implies i == j && a
        == b by {
        let _ = windows[i].tabs[back(i, a)];
        let _ = windows[j].tabs[back(j, b)];
    }
}

/// Identifiers stay unique across all windows when a tab leaves a window for one of its own.
pub proof fn law_tear_off_keeps_ids_unique<H, E>(
    windows: Seq<WindowModel<H, E>>,
    k: int,
    index: int,
    next: usize,
    rest: WindowModel<H, E>,
    torn_off: WindowModel<H, E>,
)
    requires
        ids_unique(windows),
        ids_below(windows, next),
        0 <= k < windows.len(),
        0 <= index < windows[k].tabs.len(),
        rest.tabs == windows[k].tabs.remove(index),
        torn_off.tabs == seq![windows[k].tabs[index]],
    ensures
        ids_unique(windows.update(k, rest).push(torn_off)),
        ids_below(windows.update(k, rest).push(torn_off), next),
{
    let after = windows.update(k, rest).push(torn_off);
    let n = windows.len() as int;
    let window_of = |i: int| if i == n { k } else { i };
    let back = |i: int, a: int|
        if i == n {
            index
        } else if i == k && a >= index {
            a + 1
        } else {
            a
        };
    assert forall|i: int, a: int|
        #![trigger after[i].tabs[a]]
        0 <= i < after.len() && 0 <= a < after[i].tabs.len() implies after[i].tabs[a]
        == windows[window_of(i)].tabs[back(i, a)] && 0 <= back(i, a)
        < windows[window_of(i)].tabs.len() by {}
    assert forall|i: int, a: int, j: int, b: int|
        #![trigger after[i].tabs[a], after[j].tabs[b]]
        0 <= i < after.len() && 0 <= a < after[i].tabs.len() && 0 <= j < after.len() && 0 <= b
            < after[j].tabs.len() && after[i].tabs[a].id == after[j].tabs[b].id implies i == j && a
        == b by {
        let _ = windows[window_of(i)].tabs[back(i, a)];
        let _ = windows[window_of(j)].tabs[back(j, b)];
    }
}

/// Identifiers stay unique across all windows when a tab moves within its window.
pub proof fn law_reorder_keeps_ids_unique<H, E>(
    windows: Seq<WindowModel<H, E>>,
    k: int,
    next: usize,
    from: int,
    to: int,
)
    requires
        ids_unique(windows),
        ids_below(windows, next),
        0 <= k < windows.len(),
        0 <= from,
        0 <= to,
    ensures
        ids_unique(windows.update(k, windows[k].tab_reordered(from, to))),
        ids_below(windows.update(k, windows[k].tab_reordered(from, to)), next),
{
    let after = windows.update(k, windows[k].tab_reordered(from, to));
    let moves = from != to && from < windows[k].tabs.len() && to < windows[k].tabs.len();
    let back = |i: int, a: int| if i == k && moves { index_after_move(a, to, from) } else { a };
    assert forall|i: int, a: int|
        #![trigger after[i].tabs[a]]
        0 <= i < after.len() && 0 <= a < after[i].tabs.len() implies after[i].tabs[a]
        == windows[i].tabs[back(i, a)] && 0 <= back(i, a) < windows[i].tabs.len() by {}
    assert forall|i: int, a: int, j: int, b: int|
        #![trigger after[i].tabs[a], after[j].tabs[b]]
        0 <= i < after.len() && 0 <= a < after[i].tabs.len() && 0 <= j < after.len() && 0 <= b
            < after[j].tabs.len() && after[i].tabs[a].id == after[j].tabs[b].id implies i == j && a
        == b by {
        let _ = windows[i].tabs[back(i, a)];
        let _ = windows[j].tabs[back(j, b)];
    }
}

/// Identifiers stay unique across all windows when a window selects a tab or changes a title.
pub proof fn law_select_and_titles_keep_ids_unique<H, E>(
    windows: Seq<WindowModel<H, E>>,
    k: int,
    next: usize,
    index: int,
    id: usize,
    title: Seq<char>,
)
    requires
        ids_unique(windows),
        ids_below(windows, next),
        0 <= k < windows.len(),
        0 <= index,
    ensures
        ids_unique(windows.update(k, windows[k].tab_selected(index))),
        ids_below(windows.update(k, windows[k].tab_selected(index)), next),
        ids_unique(windows.update(k, windows[k].tab_title_updated(id, title))),
        ids_below(windows.update(k, windows[k].tab_title_updated(id, title)), next),
        ids_unique(windows.update(k, windows[k].tab_title_reset(id))),
        ids_below(windows.update(k, windows[k].tab_title_reset(id)), next),
{
    law_index_of(windows[k], id);
    lemma_same_ids(windows, k, next, windows[k].tab_selected(index));
    lemma_same_ids(windows, k, next, windows[k].tab_title_updated(id, title));
    lemma_same_ids(windows, k, next, windows[k].tab_title_reset(id));
}

/// Identifiers stay unique across all windows when a window keeps its tabs in place, as events,
/// frames and configurations do.
pub proof fn law_tabs_in_place_keep_ids_unique<H, E>(
    windows: Seq<WindowModel<H, E>>,
    k: int,
    next: usize,
    after: WindowModel<H, E>,
)
    requires
        ids_unique(windows),
        ids_below(windows, next),
        0 <= k < windows.len(),
        tabs_in_place(windows[k], after),
    ensures
        ids_unique(windows.update(k, after)),
        ids_below(windows.update(k, after), next),
{
    let ids = tab_ids(windows[k].tabs);
    assert(tab_ids(after.tabs).len() == after.tabs.len());
    assert(ids.len() == windows[k].tabs.len());
    assert forall|a: int| 0 <= a < after.tabs.len() implies (#[trigger] after.tabs[a]).id
        == windows[k].tabs[a].id by {
        assert(tab_ids(after.tabs)[a] == ids[a]);
    }
    lemma_same_ids(windows, k, next, after);
}

proof fn lemma_same_ids<H, E>(
    windows: Seq<WindowModel<H, E>>,
    k: int,
    next: usize,
    window: WindowModel<H, E>,
)
    requires
        ids_unique(windows),
        ids_below(windows, next),
        0 <= k < windows.len(),
        window.tabs.len() == windows[k].tabs.len(),
        forall|a: int|
            0 <= a < window.tabs.len() ==> (#[trigger] window.tabs[a]).id == windows[k].tabs[a].id,
    ensures
        ids_unique(windows.update(k, window)),
        ids_below(windows.update(k, window), next),
{
    let after = windows.update(k, window);
    assert forall|i: int, a: int, j: int, b: int|
        #![trigger after[i].tabs[a], after[j].tabs[b]]
        0 <= i < after.len() && 0 <= a < after[i].tabs.len() && 0 <= j < after.len() && 0 <= b
            < after[j].tabs.len() && after[i].tabs[a].id == after[j].tabs[b].id implies i == j && a
        == b by {
        let _ = windows[i].tabs[a];
        let _ = windows[j].tabs[b];
    }
    assert forall|i: int, a: int|
        #![trigger after[i].tabs[a]]
        0 <= i < after.len() && 0 <= a < after[i].tabs.len() implies after[i].tabs[a].id < next by {
        let _ = windows[i].tabs[a];
    }
}

} // verus!
