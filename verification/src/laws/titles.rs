//! Laws of the titles of windows and tabs.

use vstd::prelude::*;

use crate::display::{ConfigDiff, ConfigModel};
use crate::effect::EffectModel;
use crate::laws::change::{asked, asks_for, one_if, rest_kept, same_but_title, same_pending};
use crate::laws::decimal::{law_numbered_title, writes_number};
use crate::laws::tabs::{law_index_of, law_index_of_distinct, law_index_of_first};
use crate::tab::{numbered_title, TabModel};
use crate::window_context::{tab_ids, WindowModel};

verus! {

/// From `before` to `after`, the title of the window did not change and was not asked to change.
pub open spec fn title_untouched<H, E>(before: WindowModel<H, E>, after: WindowModel<H, E>) -> bool {
    &&& after.display.window.title == before.display.window.title
    &&& forall|i: int|
        before.effects.len() <= i < after.effects.len() ==> !(#[trigger] after.effects[i]
            is SetTitle)
}

/// No operation on tabs touches the title of a window whose title does not follow the tabs: one
/// that was fixed when the window was opened, or one that the configuration keeps.
pub proof fn law_tabs_leave_title<H, E>(
    w: WindowModel<H, E>,
    id: usize,
    title: Seq<char>,
    index: int,
    to: int,
)
    requires
        !w.title_follows_tabs(),
        0 <= index,
        0 <= to,
    ensures
        title_untouched(w, w.tab_title_updated(id, title)),
        title_untouched(w, w.tab_title_reset(id)),
        title_untouched(w, w.tab_closed(id)),
        title_untouched(w, w.tab_selected(index)),
        title_untouched(w, w.tab_reordered(index, to)),
{
}

/// Creating a tab does not touch the title of a window whose title does not follow the tabs.
pub proof fn law_create_leaves_title<H, E>(w: WindowModel<H, E>, tab: TabModel<H>)
    requires
        !w.title_follows_tabs(),
    ensures
        title_untouched(w, w.tab_added(tab)),
{
    law_tabs_leave_title(
        WindowModel { tabs: w.tabs.push(tab), ..w },
        tab.id,
        tab.title,
        w.tabs.len() as int,
        0,
    );
}

proof fn lemma_applied_leaves_title<H, E>(w: WindowModel<H, E>, old: ConfigModel, diff: ConfigDiff)
    requires
        !w.takes_config_title(old),
    ensures
        title_untouched(w, w.config_applied(old, diff)),
{
    let asked = w.config_effects(old, diff);
    let after = w.config_applied(old, diff);
    assert forall|i: int|
        w.effects.len() <= i < after.effects.len() implies !(#[trigger] after.effects[i]
        is SetTitle) by {
        assert(after.effects[i] == asked[i - w.effects.len()]);
    }
}

/// A new configuration does not touch a title that was fixed when the window was opened.
pub proof fn law_config_leaves_preserved_title<H, E>(
    w: WindowModel<H, E>,
    config: ConfigModel,
    diff: ConfigDiff,
)
    requires
        w.preserve_title,
    ensures
        title_untouched(w, w.config_replaced(config)),
        title_untouched(w, w.config_applied(config, diff)),
        title_untouched(w, w.config_updated(config, diff)),
{
    lemma_applied_leaves_title(w, config, diff);
    lemma_applied_leaves_title(w.config_replaced(config), w.config, diff);
}

/// A new configuration leaves a title that the tabs have set, as long as the title follows the
/// tabs.
pub proof fn law_config_leaves_tab_title<H, E>(
    w: WindowModel<H, E>,
    config: ConfigModel,
    diff: ConfigDiff,
)
    requires
        config.dynamic_title,
        w.display.window.title != w.config.title,
    ensures
        title_untouched(w, w.config_updated(config, diff)),
{
    lemma_applied_leaves_title(w.config_replaced(config), w.config, diff);
}

/// A window whose title follows nothing takes on the title of every new configuration.
pub proof fn law_config_sets_static_title<H, E>(
    w: WindowModel<H, E>,
    config: ConfigModel,
    diff: ConfigDiff,
)
    requires
        !w.preserve_title,
        !config.dynamic_title,
    ensures
        w.config_updated(config, diff).display.window.title == config.title,
{
}

/// The window has the title of its active tab.
pub open spec fn title_in_step<H, E>(w: WindowModel<H, E>) -> bool {
    w.has_active_tab() && w.display.window.title == w.active().title
}

/// Selecting a tab brings the window's title in step with the tabs, if it follows them.
pub proof fn law_select_brings_title_in_step<H, E>(w: WindowModel<H, E>, index: int)
    requires
        w.title_follows_tabs(),
        0 <= index < w.tabs.len(),
    ensures
        title_in_step(w.tab_selected(index)),
{
}

/// Creating a tab brings the window's title in step with the tabs, if it follows them.
pub proof fn law_create_brings_title_in_step<H, E>(w: WindowModel<H, E>, tab: TabModel<H>)
    requires
        w.title_follows_tabs(),
    ensures
        title_in_step(w.tab_added(tab)),
        w.tab_added(tab).display.window.title == tab.title,
{
}

/// A title in step with the tabs stays so when tabs are closed, reordered or given another title.
pub proof fn law_title_stays_in_step<H, E>(
    w: WindowModel<H, E>,
    id: usize,
    title: Seq<char>,
    from: int,
    to: int,
)
    requires
        w.wf(),
        w.title_follows_tabs(),
        title_in_step(w),
        0 <= from,
        0 <= to,
    ensures
        title_in_step(w.tab_title_updated(id, title)),
        w.tab_closed(id).tabs.len() > 0 ==> title_in_step(w.tab_closed(id)),
        title_in_step(w.tab_reordered(from, to)),
{
    law_index_of(w, id);
    law_index_of_distinct(w, w.active_tab);
}

/// A tab has the title that it was last given, and no other tab changes.
pub proof fn law_title_reads_back<H, E>(w: WindowModel<H, E>, i: int, j: int, title: Seq<char>)
    requires
        w.wf(),
        0 <= i < w.tabs.len(),
        0 <= j < w.tabs.len(),
    ensures
        w.tab_title_updated(w.tabs[i].id, title).tabs[i] == w.tabs[i].with_title(title),
        i != j ==> w.tab_title_updated(w.tabs[i].id, title).tabs[j] == w.tabs[j],
{
    law_index_of_distinct(w, i);
}

/// A title for a tab that the window does not have changes no tab.
pub proof fn law_title_of_unknown_tab<H, E>(w: WindowModel<H, E>, id: usize, title: Seq<char>)
    requires
        !w.has_tab(id),
    ensures
        w.has_active_tab() ==> w.tab_title_updated(id, title) == w,
        w.tab_title_reset(id) == w,
{
    law_index_of(w, id);
    if w.has_active_tab() {
        assert(tab_ids(w.tabs)[w.active_tab] == w.active().id);
    }
}

/// A reset gives a tab the title of its place, whatever title it had, and no other tab changes.
pub proof fn law_reset_forgets_title<H, E>(w: WindowModel<H, E>, i: int, j: int, title: Seq<char>)
    requires
        w.wf(),
        0 <= i < w.tabs.len(),
        0 <= j < w.tabs.len(),
    ensures
        w.tab_title_reset(w.tabs[i].id).tabs[i] == w.tabs[i].with_title(
            numbered_title((i + 1) as nat),
        ),
        i != j ==> w.tab_title_reset(w.tabs[i].id).tabs[j] == w.tabs[j],
        w.tab_title_updated(w.tabs[i].id, title).tab_title_reset(w.tabs[i].id).tabs
            == w.tab_title_reset(w.tabs[i].id).tabs,
{
    law_index_of_distinct(w, i);
    let updated = w.tab_title_updated(w.tabs[i].id, title);
    assert(tab_ids(updated.tabs) =~= tab_ids(w.tabs));
    law_index_of_distinct(updated, i);
    assert(updated.tab_title_reset(w.tabs[i].id).tabs =~= w.tab_title_reset(w.tabs[i].id).tabs);
}

/// From `before` to `after`, nothing changed but the title of the tab at `i` and the title of the
/// window. The window took on `title` if `shown` holds, and kept its own otherwise.
pub open spec fn retitled<H, E>(
    before: WindowModel<H, E>,
    after: WindowModel<H, E>,
    i: int,
    shown: bool,
    title: Seq<char>,
) -> bool {
    &&& after.active_tab == before.active_tab
    &&& after.tabs.len() == before.tabs.len()
    &&& forall|j: int|
        0 <= j < before.tabs.len() && j != i ==> #[trigger] after.tabs[j] == before.tabs[j]
    &&& 0 <= i < before.tabs.len() ==> same_but_title(after.tabs[i], before.tabs[i])
    &&& rest_kept(before, after)
    &&& same_pending(before, after)
    &&& asks_for(before, after, one_if(shown))
    &&& shown ==> asked(before, after)[0] == (EffectModel::SetTitle { title })
    &&& after.display.window.title == if shown {
        title
    } else {
        before.display.window.title
    }
}

/// A new title goes to the first tab with the identifier, and to the window exactly if that tab's
/// identifier is the active one and the title follows the tabs.
pub proof fn law_title_goes_to_tab<H, E>(w: WindowModel<H, E>, id: usize, i: int, title: Seq<char>)
    requires
        0 <= w.active_tab < w.tabs.len(),
        0 <= i < w.tabs.len(),
        w.tabs[i].id == id,
        forall|j: int| 0 <= j < i ==> (#[trigger] w.tabs[j]).id != id,
    ensures
        ({
            let shown = w.tabs[w.active_tab].id == id && !w.preserve_title
                && w.config.dynamic_title;
            &&& w.tab_title_updated(id, title).tabs[i].title == title
            &&& retitled(w, w.tab_title_updated(id, title), i, shown, title)
        }),
{
    law_index_of_first(w, id, i);
}

/// A reset names the first tab with the identifier after its place, counted from one, and gives the
/// window the title of its configuration exactly if that tab's identifier is the active one and the
/// title follows the tabs.
pub proof fn law_reset_names_tab_after_place<H, E>(w: WindowModel<H, E>, id: usize, i: int)
    requires
        0 <= w.active_tab < w.tabs.len(),
        0 <= i < w.tabs.len(),
        w.tabs[i].id == id,
        forall|j: int| 0 <= j < i ==> (#[trigger] w.tabs[j]).id != id,
    ensures
        ({
            let r = w.tab_title_reset(id);
            let shown = w.tabs[w.active_tab].id == id && !w.preserve_title
                && w.config.dynamic_title;
            &&& r.tabs[i].title.len() > 9
            &&& r.tabs[i].title.take(9) == seq!['T', 'e', 'r', 'm', 'i', 'n', 'a', 'l', ' ']
            &&& writes_number(r.tabs[i].title.skip(9), i + 1)
            &&& retitled(w, r, i, shown, w.config.title)
        }),
{
    law_index_of_first(w, id, i);
    law_numbered_title((i + 1) as nat);
}

} // verus!
