//! State of one terminal window with its tabs.

use std::rc::Rc;

use vstd::prelude::*;

use crate::display::{ConfigModel, Display, DisplayModel, TabDragState, UiConfig};
use crate::effect::{effect_models, texts, Effect, EffectModel};
use crate::tab::{Tab, TabModel};

verus! {

/// An event that waits to be processed.
#[derive(Clone, Debug, PartialEq, Eq)]
pub enum QueuedEvent<E> {
    /// An event of the platform or of the application.
    Received(E),
    /// The blinking of the cursor may have changed.
    CursorBlinkingChange,
}

/// State of one individual terminal window.
///
/// `H` is what a tab owns outside this library, `E` is an event of the event loop. What a call
/// asks of the display, the terminals and the PTYs is appended to `effects`.
#[derive(Debug)]
pub struct WindowContext<H, E> {
    /// What is known of the display.
    pub display: Display,
    /// Whether the window has to be drawn again.
    pub dirty: bool,
    /// Whether the tab bar is hidden (tabs still switch via shortcuts).
    pub tab_bar_hidden: bool,
    /// All tabs for this window.
    pub tabs: Vec<Tab<H>>,
    /// Index of the currently active tab.
    pub active_tab: usize,
    /// Events that wait to be processed.
    pub event_queue: Vec<QueuedEvent<E>>,
    /// Whether the highlighted hints have to be computed again.
    pub hint_highlight_dirty: bool,
    /// Whether nothing of the window can be seen.
    pub occluded: bool,
    /// Whether the title was fixed when the window was opened.
    pub preserve_title: bool,
    /// How far the dragging of a tab has come.
    pub drag_state: TabDragState,
    /// Options that override the configuration in this window.
    pub window_config: Vec<String>,
    /// The configuration, with the overrides applied.
    pub config: Rc<UiConfig>,
    /// What has been asked for and not been carried out.
    pub effects: Vec<Effect>,
}

/// The mathematical model of a [`WindowContext`].
#[verifier::ext_equal]
pub struct WindowModel<H, E> {
    pub display: DisplayModel,
    pub dirty: bool,
    pub tab_bar_hidden: bool,
    pub tabs: Seq<TabModel<H>>,
    pub active_tab: int,
    pub event_queue: Seq<QueuedEvent<E>>,
    pub hint_highlight_dirty: bool,
    pub occluded: bool,
    pub preserve_title: bool,
    pub drag_state: TabDragState,
    pub window_config: Seq<Seq<char>>,
    pub config: ConfigModel,
    pub effects: Seq<EffectModel>,
}

/// The models of a sequence of tabs.
pub open spec fn tab_models<H>(tabs: Seq<Tab<H>>) -> Seq<TabModel<H>> {
    tabs.map_values(|t: Tab<H>| t@)
}

/// The identifiers of a sequence of tabs.
pub open spec fn tab_ids<H>(tabs: Seq<TabModel<H>>) -> Seq<usize> {
    tabs.map_values(|t: TabModel<H>| t.id)
}

/// The titles of a sequence of tabs.
pub open spec fn tab_titles<H>(tabs: Seq<TabModel<H>>) -> Seq<Seq<char>> {
    tabs.map_values(|t: TabModel<H>| t.title)
}

impl<H, E> View for WindowContext<H, E> {
    type V = WindowModel<H, E>;

    open spec fn view(&self) -> WindowModel<H, E> {
        WindowModel {
            display: self.display@,
            dirty: self.dirty,
            tab_bar_hidden: self.tab_bar_hidden,
            tabs: tab_models(self.tabs@),
            active_tab: self.active_tab as int,
            event_queue: self.event_queue@,
            hint_highlight_dirty: self.hint_highlight_dirty,
            occluded: self.occluded,
            preserve_title: self.preserve_title,
            drag_state: self.drag_state,
            window_config: texts(self.window_config@),
            config: self.config@,
            effects: effect_models(self.effects@),
        }
    }
}

impl<H, E> WindowModel<H, E> {
    /// The active tab is one of the tabs.
    pub open spec fn has_active_tab(self) -> bool {
        0 <= self.active_tab < self.tabs.len()
    }

    /// No two tabs share an identifier.
    pub open spec fn ids_distinct(self) -> bool {
        tab_ids(self.tabs).no_duplicates()
    }

    /// While the window has tabs, one of them is active, and no two share an identifier.
    pub open spec fn wf(self) -> bool {
        &&& self.tabs.len() > 0 ==> self.has_active_tab()
        &&& self.ids_distinct()
    }

    /// Whether a tab has the identifier `id`.
    pub open spec fn has_tab(self, id: usize) -> bool {
        tab_ids(self.tabs).contains(id)
    }

    /// Index of the first tab with the identifier `id`, if there is one.
    pub open spec fn index_of(self, id: usize) -> Option<int> {
        tab_ids(self.tabs).index_of_first(id)
    }

    /// The active tab.
    pub open spec fn active(self) -> TabModel<H> {
        self.tabs[self.active_tab]
    }

    /// Whether the window's title follows the tabs.
    pub open spec fn title_follows_tabs(self) -> bool {
        !self.preserve_title && self.config.dynamic_title
    }

    /// The window after asking for `asked`.
    pub open spec fn asking(self, asked: Seq<EffectModel>) -> Self {
        WindowModel { effects: self.effects + asked, ..self }
    }

    /// The window after taking on the title `title`, if `condition` holds.
    pub open spec fn titled_if(self, condition: bool, title: Seq<char>) -> Self {
        if condition {
            WindowModel { display: self.display.with_title(title), ..self }.asking(
                seq![EffectModel::SetTitle { title }],
            )
        } else {
            self
        }
    }
}

impl<H, E> WindowContext<H, E> {
    /// Asks for an effect.
    pub(crate) fn ask(&mut self, effect: Effect)
        ensures
            final(self)@ == old(self)@.asking(seq![effect@]),
            final(self).tabs@ == old(self).tabs@,
    {
        self.effects.push(effect);
        assert(effect_models(self.effects@) =~= effect_models(old(self).effects@) + seq![effect@]);
    }

    /// Changes the title of the window.
    pub(crate) fn set_title(&mut self, title: String)
        ensures
            final(self)@ == old(self)@.titled_if(true, title@),
            final(self).tabs@ == old(self).tabs@,
    {
        self.display.window.title = title.clone();
        self.ask(Effect::SetTitle { title });
    }

    /// Get a reference to the active tab.
    pub fn active_tab(&self) -> (r: &Tab<H>)
        requires
            self@.has_active_tab(),
        ensures
            *r == self.tabs@[self.active_tab as int],
            r@ == self@.active(),
    {
        &self.tabs[self.active_tab]
    }

    /// Get a mutable reference to the active tab.
    pub fn active_tab_mut(&mut self) -> (r: &mut Tab<H>)
        requires
            old(self)@.has_active_tab(),
        ensures
            *r == old(self).tabs@[old(self).active_tab as int],
            final(self)@ == (WindowModel {
                tabs: old(self)@.tabs.update(old(self)@.active_tab, final(r)@),
                ..old(self)@
            }),
    {
        &mut self.tabs[self.active_tab]
    }

    /// Get the stable ID of the active tab.
    pub fn active_tab_id(&self) -> (r: usize)
        requires
            self@.has_active_tab(),
        ensures
            r == self@.active().id,
            r == self.tabs@[self.active_tab as int].id,
    {
        self.tabs[self.active_tab].id
    }

    /// Find a tab by its stable ID.
    pub fn tab_index_by_id(&self, tab_id: usize) -> (r: Option<usize>)
        ensures
            match r {
                Some(i) => self@.index_of(tab_id) == Some(i as int),
                None => self@.index_of(tab_id) is None,
            },
            r is Some <==> self@.has_tab(tab_id),
            r matches Some(i) ==> i < self@.tabs.len() && self@.tabs[i as int].id == tab_id
                && forall|j: int| 0 <= j < i ==> self@.tabs[j].id != tab_id,
            r is None ==> forall|j: int|
                0 <= j < self@.tabs.len() ==> (#[trigger] self@.tabs[j]).id != tab_id,
    {
        let ghost ids = tab_ids(self@.tabs);
        assert(forall|j: int| 0 <= j < ids.len() ==> #[trigger] self@.tabs[j].id == ids[j]);
        proof {
            ids.index_of_first_ensures(tab_id);
        }
        let mut i: usize = 0;
        while i < self.tabs.len()
            invariant
                i <= self.tabs.len(),
                ids == tab_ids(self@.tabs),
                ids.len() == self.tabs.len(),
                forall|j: int| 0 <= j < ids.len() ==> #[trigger] self@.tabs[j].id == ids[j],
                forall|j: int| 0 <= j < i ==> ids[j] != tab_id,
            decreases self.tabs.len() - i,
        {
            if self.tabs[i].id == tab_id {
                assert(ids[i as int] == tab_id);
                proof {
                    ids.index_of_first_ensures(tab_id);
                }
                return Some(i);
            }
            i += 1;
        }
        None
    }

    /// ID of this terminal context.
    pub fn id(&self) -> (r: u64)
        ensures
            r == self@.display.window.id,
            r == self.display.window.id,
    {
        self.display.window.id
    }
}

} // verus!
