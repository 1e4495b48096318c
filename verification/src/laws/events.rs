//! Laws of events, frames and configurations.

use vstd::prelude::*;

use crate::display::{ConfigDiff, ConfigModel};
use crate::effect::EffectModel;
use crate::events::Viewport;
use crate::tab::TabModel;
use crate::window_context::{tab_ids, QueuedEvent, WindowModel};

verus! {

impl<H, E> WindowModel<H, E> {
    /// The window after `events` were staged one after the other.
    pub open spec fn staged_all(self, events: Seq<E>) -> Self
        decreases events.len(),
    {
        if events.len() == 0 {
            self
        } else {
            self.staged_all(events.drop_last()).staged(events.last())
        }
    }
}

/// Staged events wait in the order in which they came, and none is lost.
pub proof fn law_events_keep_order<H, E>(w: WindowModel<H, E>, events: Seq<E>)
    ensures
        w.staged_all(events).event_queue == w.event_queue + events.map_values(
            |e: E| QueuedEvent::Received(e),
        ),
        w.staged_all(events) == (WindowModel {
            event_queue: w.staged_all(events).event_queue,
            ..w
        }),
    decreases events.len(),
{
    let received = |e: E| QueuedEvent::Received(e);
    if events.len() == 0 {
        assert(w.event_queue + events.map_values(received) =~= w.event_queue);
    } else {
        law_events_keep_order(w, events.drop_last());
        assert(events.map_values(received) =~= events.drop_last().map_values(received).push(
            received(events.last()),
        ));
        assert(w.staged_all(events).event_queue =~= w.event_queue + events.map_values(received));
    }
}

/// A batch takes all staged events out, so that none is processed twice.
pub proof fn law_batch_empties_queue<H, E>(w: WindowModel<H, E>)
    ensures
        w.batch_taken().event_queue.len() == 0,
{
}

/// Events meet a terminal that has the size of the display.
pub proof fn law_terminal_fits_at_batch<H, E>(w: WindowModel<H, E>)
    requires
        w.has_active_tab(),
    ensures
        w.batch_taken().active_fits(),
{
}

/// A frame shows a terminal that has the size of the display.
pub proof fn law_terminal_fits_at_draw<H, E>(w: WindowModel<H, E>, bell_completed: bool)
    requires
        w.has_active_tab(),
    ensures
        w.frame_drawn(bell_completed).active_fits(),
        w.frame_drawn(bell_completed).effects.last() == (EffectModel::DrawFrame {
            frame: w.frame(),
        }),
{
    assert(w.bell_handled(bell_completed).frame() == w.frame());
}

/// A terminal that has the size of the display is not resized again.
pub proof fn law_fit_once<H, E>(w: WindowModel<H, E>)
    requires
        w.has_active_tab(),
    ensures
        w.fitted().fitted() == w.fitted(),
        w.active_fits() ==> w.fitted() == w,
{
    assert(w.fitted().active_fits());
    assert(w.fitted().fitted().tabs =~= w.fitted().tabs);
    assert(w.fitted().fitted().effects =~= w.fitted().effects);
    if w.active_fits() {
        assert(w.fitted().tabs =~= w.tabs);
        assert(w.fitted().effects =~= w.effects);
    }
}

/// From `before` to `after`, no frame was asked for.
pub open spec fn no_frame_asked<H, E>(before: WindowModel<H, E>, after: WindowModel<H, E>) -> bool {
    forall|i: int|
        before.effects.len() <= i < after.effects.len() ==> !(#[trigger] after.effects[i]
            is RequestRedraw)
}

/// A window of which nothing can be seen draws nothing and asks for no frame.
pub proof fn law_occluded_window_rests<H, E>(
    w: WindowModel<H, E>,
    bell_completed: bool,
    redraw_requested: bool,
)
    requires
        w.occluded,
    ensures
        w.draw_begun() == w.asking(seq![EffectModel::ClearRedrawRequest]),
        w.drawn(bell_completed) == w.draw_begun(),
        no_frame_asked(w, w.drawn(bell_completed)),
        no_frame_asked(w, w.batch_finished(redraw_requested)),
{
}

/// A batch that ends because the platform asked for a frame asks for none itself.
pub proof fn law_frame_asked_once<H, E>(w: WindowModel<H, E>, changed: bool)
    ensures
        no_frame_asked(w, w.display_settled(true)),
        no_frame_asked(w, w.hints_updated(changed).batch_finished(true)),
{
}

/// What a drawn window shows is up to date, unless a bell still shows and the platform is not
/// ready for the frame that this takes.
pub proof fn law_drawn_window_is_clean<H, E>(w: WindowModel<H, E>, bell_completed: bool)
    requires
        !w.occluded,
        bell_completed || w.display.window.has_frame,
    ensures
        !w.drawn(bell_completed).dirty,
{
}

/// Applying the same configuration again changes nothing that was configured: neither the font nor
/// its size, neither the cursor nor the layout are asked for again, and exactly one more event
/// waits, which has the blinking of the cursor looked at. That the configuration is the same shows
/// in `again`, which finds no difference in what is measured in fractions.
pub proof fn law_config_again<H, E>(
    w: WindowModel<H, E>,
    config: ConfigModel,
    diff: ConfigDiff,
    again: ConfigDiff,
)
    requires
        !again.cursor_thickness_changed,
        !again.font_changed,
        !again.padding_changed,
    ensures
        ({
            let once = w.config_updated(config, diff);
            let twice = once.config_updated(config, again);
            &&& once.config == config
            &&& twice.config == config
            &&& twice.window_config == once.window_config
            &&& twice.tabs == once.tabs
            &&& twice.display.update_pending == once.display.update_pending
            &&& twice.event_queue == once.event_queue.push(QueuedEvent::CursorBlinkingChange)
            &&& forall|i: int|
                once.effects.len() <= i < twice.effects.len() ==> {
                    let e = #[trigger] twice.effects[i];
                    !(e is SetFont) && !(e is ScaleFontSize) && !(e is SetCursorDirty) && !(e
                        is RequestDisplayUpdate)
                }
        }),
{
    let once = w.config_updated(config, diff);
    let replaced = once.config_replaced(config);
    let twice = replaced.config_applied(config, again);
    assert(!replaced.layout_changed(config, again));
    assert(twice.effects == replaced.effects + replaced.config_effects(config, again));
    let asked = replaced.config_effects(config, again);
    assert forall|i: int| 0 <= i < asked.len() implies {
        let e = #[trigger] asked[i];
        !(e is SetFont) && !(e is ScaleFontSize) && !(e is SetCursorDirty) && !(e
            is RequestDisplayUpdate)
    } by {
        assert(asked[i] is SetTerminalOptions || asked[i] is SetTheme || asked[i] is SetTitle
            || asked[i] is SetHasShadow || asked[i] is SetOptionAsAlt || asked[i] is SetTransparent
            || asked[i] is SetBlur || asked[i] is UpdateHintAlphabet);
    }
    assert forall|i: int| once.effects.len() <= i < twice.effects.len() implies {
        let e = #[trigger] twice.effects[i];
        !(e is SetFont) && !(e is ScaleFontSize) && !(e is SetCursorDirty) && !(e
            is RequestDisplayUpdate)
    } by {
        if i > once.effects.len() {
            assert(twice.effects[i] == asked[i - replaced.effects.len()]);
        } else {
            assert(twice.effects[i] is UpdateDisplayConfig);
        }
    }
}

/// Overrides add up in the order in which they came, and a reset removes them all, whatever
/// configurations result from them.
pub proof fn law_overrides_add_up<H, E>(
    w: WindowModel<H, E>,
    first: Seq<Seq<char>>,
    first_config: ConfigModel,
    first_diff: ConfigDiff,
    second: Seq<Seq<char>>,
    second_config: ConfigModel,
    second_diff: ConfigDiff,
    reset_config: ConfigModel,
    reset_diff: ConfigDiff,
)
    ensures
        ({
            let once = w.overridden_by(w.window_config + first).config_updated(
                first_config,
                first_diff,
            );
            let twice = once.overridden_by(once.window_config + second).config_updated(
                second_config,
                second_diff,
            );
            let reset = twice.overridden_by(Seq::empty()).config_updated(reset_config, reset_diff);
            &&& once.window_config == w.window_config + first
            &&& twice.window_config == w.window_config + first + second
            &&& reset.window_config.len() == 0
        }),
{
}

/// From `before` to `after`, the window kept its tabs in their order, and the active one.
pub open spec fn tabs_in_place<H, E>(before: WindowModel<H, E>, after: WindowModel<H, E>) -> bool {
    &&& after.active_tab == before.active_tab
    &&& tab_ids(after.tabs) == tab_ids(before.tabs)
}

/// A window that keeps its tabs in place stays well-formed.
pub proof fn law_tabs_in_place_keep_wf<H, E>(before: WindowModel<H, E>, after: WindowModel<H, E>)
    requires
        before.wf(),
        tabs_in_place(before, after),
    ensures
        after.wf(),
{
    assert(tab_ids(before.tabs).len() == before.tabs.len());
    assert(tab_ids(after.tabs).len() == after.tabs.len());
}

/// Events, frames and configurations keep the tabs in place.
pub proof fn law_tabs_stay_in_place<H, E>(
    w: WindowModel<H, E>,
    event: E,
    tab: int,
    was_searching: bool,
    before: Viewport,
    changed: bool,
    redraw_requested: bool,
    bell_completed: bool,
    config: ConfigModel,
    diff: ConfigDiff,
)
    ensures
        tabs_in_place(w, w.staged(event)),
        w.has_active_tab() ==> tabs_in_place(w, w.batch_taken()),
        tabs_in_place(w, w.display_settled(redraw_requested)),
        tabs_in_place(w, w.display_updated(tab, was_searching, before)),
        tabs_in_place(w, w.hints_updated(changed).batch_finished(redraw_requested)),
        tabs_in_place(w, w.draw_begun()),
        w.has_active_tab() ==> tabs_in_place(w, w.frame_drawn(bell_completed)),
        tabs_in_place(w, w.config_replaced(config)),
        tabs_in_place(w, w.config_applied(config, diff)),
{
    if w.has_active_tab() {
        assert(tab_ids(w.batch_taken().tabs) =~= tab_ids(w.tabs));
        assert(tab_ids(w.frame_drawn(bell_completed).tabs) =~= tab_ids(w.tabs));
    }
}

/// A batch that leaves a visible window in need of drawing ends with asking for a frame, if the
/// platform is ready for one and has not asked for it itself.
pub proof fn law_dirty_window_gets_frame<H, E>(
    w: WindowModel<H, E>,
    tab: int,
    was_searching: bool,
    before: Viewport,
    changed: bool,
)
    requires
        w.dirty || w.display.update_pending || w.hint_highlight_dirty && changed,
        w.display.window.has_frame,
        !w.occluded,
    ensures
        ({
            let updated = if w.display.update_pending {
                w.display_updated(tab, was_searching, before)
            } else {
                w.display_settled(false)
            };
            &&& updated.hints_outdated()
            &&& updated.hints_updated(changed).batch_finished(false).effects.last()
                == EffectModel::RequestRedraw
        }),
{
}

/// Hints that were computed are not computed again before something changes.
pub proof fn law_hints_computed_once<H, E>(w: WindowModel<H, E>, changed: bool)
    ensures
        !w.hints_updated(changed).hint_highlight_dirty,
        !w.dirty && !changed ==> !w.hints_updated(changed).hints_outdated(),
{
}

/// From `before` to `after`, what was asked for earlier still is, in the same order.
pub open spec fn asks_more<H, E>(before: WindowModel<H, E>, after: WindowModel<H, E>) -> bool {
    before.effects.is_prefix_of(after.effects)
}

/// Events, frames and configurations forget nothing that was asked for before.
pub proof fn law_effects_only_grow<H, E>(
    w: WindowModel<H, E>,
    event: E,
    tab: int,
    was_searching: bool,
    before: Viewport,
    changed: bool,
    redraw_requested: bool,
    bell_completed: bool,
    config: ConfigModel,
    diff: ConfigDiff,
)
    ensures
        asks_more(w, w.staged(event)),
        asks_more(w, w.batch_taken()),
        asks_more(w, w.display_settled(redraw_requested)),
        asks_more(w, w.display_updated(tab, was_searching, before)),
        asks_more(w, w.hints_updated(changed).batch_finished(redraw_requested)),
        asks_more(w, w.draw_begun()),
        asks_more(w, w.frame_drawn(bell_completed)),
        asks_more(w, w.config_replaced(config)),
        asks_more(w, w.config_applied(config, diff)),
{
}

/// Operations on tabs forget nothing that was asked for before.
pub proof fn law_tab_effects_only_grow<H, E>(
    w: WindowModel<H, E>,
    id: usize,
    title: Seq<char>,
    index: int,
    to: int,
    tab: TabModel<H>,
)
    ensures
        asks_more(w, w.tab_title_updated(id, title)),
        asks_more(w, w.tab_title_reset(id)),
        asks_more(w, w.tab_closed(id)),
        asks_more(w, w.tab_selected(index)),
        asks_more(w, w.tab_reordered(index, to)),
        asks_more(w, w.tab_added(tab)),
{
}

} // verus!
