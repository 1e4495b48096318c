//! Laws of what a new configuration asks for.

use vstd::prelude::*;

use crate::display::{ConfigDiff, ConfigModel};
use crate::effect::EffectModel;
use crate::laws::change::{
    asked, asks_for, in_order, one_if, same_appearance, same_events, same_pending, same_platform,
    same_tabs,
};
use crate::window_context::{QueuedEvent, WindowModel};

verus! {

/// Exactly one effect of a kind is in `effects`, and it is `e`.
pub open spec fn only_one(
    effects: Seq<EffectModel>,
    of_kind: spec_fn(EffectModel) -> bool,
    e: EffectModel,
) -> bool {
    exists|i: int|
        {
            &&& 0 <= i < effects.len()
            &&& #[trigger] effects[i] == e
            &&& forall|j: int|
                0 <= j < effects.len() && of_kind(#[trigger] effects[j]) ==> j == i
        }
}

/// Taking on a configuration hands it to the display, and changes nothing else yet.
pub proof fn law_config_goes_to_display<H, E>(w: WindowModel<H, E>, config: ConfigModel)
    ensures
        ({
            let r = w.config_replaced(config);
            &&& r.config == config
            &&& r.window_config == w.window_config
            &&& r.display.window.title == w.display.window.title
            &&& same_platform(w, r)
            &&& same_appearance(w, r)
            &&& same_events(w, r)
            &&& same_pending(w, r)
            &&& same_tabs(w, r)
            &&& asks_for(w, r, 1)
            &&& asked(w, r)[0] == EffectModel::UpdateDisplayConfig
        }),
{
}

/// New overrides take the place of the old ones and of the messages about these, and change nothing
/// else.
pub proof fn law_overrides_replace_messages<H, E>(w: WindowModel<H, E>, options: Seq<Seq<char>>)
    ensures
        ({
            let r = w.overridden_by(options);
            &&& r.window_config == options
            &&& r.config == w.config
            &&& r.display.window.title == w.display.window.title
            &&& same_platform(w, r)
            &&& same_appearance(w, r)
            &&& same_events(w, r)
            &&& same_pending(w, r)
            &&& same_tabs(w, r)
            &&& asks_for(w, r, 1)
            &&& asked(w, r)[0] == EffectModel::RemoveIpcConfigMessages
        }),
{
}

/// Whether a configuration that replaced `old` changed the layout of the window.
pub open spec fn lays_out_anew<H, E>(
    w: WindowModel<H, E>,
    old: ConfigModel,
    diff: ConfigDiff,
) -> bool {
    ||| diff.padding_changed
    ||| w.config.dynamic_padding && !old.dynamic_padding
    ||| !w.config.dynamic_padding && old.dynamic_padding
    ||| w.config.resize_increments && !old.resize_increments
    ||| !w.config.resize_increments && old.resize_increments
}

/// Whether a configuration that replaced `old` gives the window its title: one that was not fixed,
/// and that the tabs do not set or have not set.
pub open spec fn titles_anew<H, E>(w: WindowModel<H, E>, old: ConfigModel) -> bool {
    &&& !w.preserve_title
    &&& w.config.dynamic_title ==> w.display.window.title == old.title
}

/// A configuration that the display has applied leaves the window to be drawn and the blinking of
/// the cursor to be looked at. It changes the title and the layout only where they depend on it,
/// and no tab.
pub proof fn law_config_changes<H, E>(w: WindowModel<H, E>, old: ConfigModel, diff: ConfigDiff)
    ensures
        ({
            let r = w.config_applied(old, diff);
            &&& r.dirty
            &&& r.event_queue == w.event_queue.push(QueuedEvent::CursorBlinkingChange)
            &&& r.hint_highlight_dirty == w.hint_highlight_dirty
            &&& r.display.update_pending == (w.display.update_pending || lays_out_anew(
                w,
                old,
                diff,
            ))
            &&& r.display.window.title == if titles_anew(w, old) {
                w.config.title
            } else {
                w.display.window.title
            }
            &&& r.config == w.config
            &&& r.window_config == w.window_config
            &&& same_platform(w, r)
            &&& same_appearance(w, r)
            &&& same_tabs(w, r)
        }),
{
}

/// The first effects that a configuration asks for: every terminal takes on its options, from left
/// to right. Then a cursor of another thickness is loaded, the font size is taken on unless it was
/// changed at runtime, another font is loaded at that size, and the theme is applied in any case.
pub proof fn law_config_reloads<H, E>(w: WindowModel<H, E>, old: ConfigModel, diff: ConfigDiff)
    ensures
        ({
            let a = asked(w, w.config_applied(old, diff));
            let n = w.tabs.len() as int;
            let scales = diff.font_changed && diff.font_size_untouched;
            let cursor = n + one_if(diff.cursor_thickness_changed);
            let scale = cursor + one_if(scales);
            let font = scale + one_if(diff.font_changed);
            &&& a.len() >= font + 1
            &&& forall|i: int|
                0 <= i < n ==> #[trigger] a[i] == (EffectModel::SetTerminalOptions { tab: i })
            &&& diff.cursor_thickness_changed ==> a[n] == EffectModel::SetCursorDirty
            &&& scales ==> a[cursor] == EffectModel::ScaleFontSize
            &&& diff.font_changed ==> a[scale] == EffectModel::SetFont
            &&& a[font] == EffectModel::SetTheme
        }),
{
    lemma_config_parts(w, old, diff);
}

/// The last effects that a configuration asks for: an update of the display for another layout, the
/// title, on macOS the shadow and the option key, then the transparency, the blur and the hints.
/// A window casts a shadow exactly if nothing shines through it, and the blur does not depend on
/// that.
pub proof fn law_config_settles<H, E>(w: WindowModel<H, E>, old: ConfigModel, diff: ConfigDiff)
    ensures
        ({
            let r = w.config_applied(old, diff);
            let a = asked(w, r);
            let macos = w.display.window.macos;
            let layout = w.tabs.len() + one_if(diff.cursor_thickness_changed) + one_if(
                diff.font_changed && diff.font_size_untouched,
            ) + one_if(diff.font_changed) + 1;
            let title = layout + one_if(lays_out_anew(w, old, diff));
            let shadow = title + one_if(titles_anew(w, old));
            let surface = shadow + 2 * one_if(macos);
            &&& asks_for(w, r, surface + 3)
            &&& lays_out_anew(w, old, diff) ==> a[layout] == EffectModel::RequestDisplayUpdate
            &&& titles_anew(w, old) ==> a[title] == (EffectModel::SetTitle {
                title: w.config.title,
            })
            &&& macos ==> a[shadow] == (EffectModel::SetHasShadow { has_shadow: w.config.opaque })
            &&& macos ==> a[shadow + 1] == EffectModel::SetOptionAsAlt
            &&& a[surface] == (EffectModel::SetTransparent { transparent: !w.config.opaque })
            &&& a[surface + 1] == (EffectModel::SetBlur { blur: w.config.blur })
            &&& a[surface + 2] == EffectModel::UpdateHintAlphabet
        }),
{
    lemma_config_parts(w, old, diff);
}

/// A change of the configuration asks exactly once for a blur and once for a transparency: the blur
/// that the configuration asks for, whether something shines through the window or not, and a
/// transparency exactly if something does.
pub proof fn law_config_sets_surface<H, E>(
    w: WindowModel<H, E>,
    config: ConfigModel,
    diff: ConfigDiff,
)
    ensures
        ({
            let a = asked(w, w.config_updated(config, diff));
            &&& only_one(
                a,
                |e: EffectModel| e is SetBlur,
                EffectModel::SetBlur { blur: config.blur },
            )
            &&& only_one(
                a,
                |e: EffectModel| e is SetTransparent,
                EffectModel::SetTransparent { transparent: !config.opaque },
            )
            &&& only_one(a, |e: EffectModel| e is SetTheme, EffectModel::SetTheme)
            &&& w.display.window.macos ==> only_one(
                a,
                |e: EffectModel| e is SetHasShadow,
                EffectModel::SetHasShadow { has_shadow: config.opaque },
            )
            &&& !w.display.window.macos ==> forall|i: int|
                0 <= i < a.len() ==> !(#[trigger] a[i] is SetHasShadow) && !(a[i]
                    is SetOptionAsAlt)
        }),
{
    let replaced = w.config_replaced(config);
    let after = replaced.config_applied(w.config, diff);
    let a = asked(w, after);
    let parts = config_parts(replaced, w.config, diff);
    assert(a =~= seq![EffectModel::UpdateDisplayConfig] + asked(replaced, after));
    assert(parts.stand_in(asked(replaced, after))) by {
        lemma_parts_stand(replaced, w.config, diff);
    }
    lemma_only_surface(asked(replaced, after), a, parts);
}

/// A change of the configuration, by which the display has not changed, is its two steps one after
/// the other.
pub proof fn law_config_has_two_steps<H, E>(
    w: WindowModel<H, E>,
    config: ConfigModel,
    diff: ConfigDiff,
)
    ensures
        w.config_updated(config, diff) == w.config_replaced(config).config_applied(w.config, diff),
{
}

/// A font is loaded after its size was taken on.
pub proof fn law_font_size_before_font<H, E>(
    w: WindowModel<H, E>,
    old: ConfigModel,
    diff: ConfigDiff,
)
    ensures
        in_order(
            asked(w, w.config_applied(old, diff)),
            EffectModel::ScaleFontSize,
            EffectModel::SetFont,
        ),
        asked(w, w.config_applied(old, diff)).contains(EffectModel::SetFont) <==> diff.font_changed,
        asked(w, w.config_applied(old, diff)).contains(EffectModel::ScaleFontSize)
            <==> diff.font_changed && diff.font_size_untouched,
        asked(w, w.config_applied(old, diff)).contains(EffectModel::SetCursorDirty)
            <==> diff.cursor_thickness_changed,
{
    let a = asked(w, w.config_applied(old, diff));
    let parts = config_parts(w, old, diff);
    assert(parts.stand_in(a)) by {
        lemma_parts_stand(w, old, diff);
    }
    lemma_font_parts(a, parts);
}

/// What the effects of a configuration depend on.
struct ConfigParts {
    tabs: int,
    cursor: bool,
    scale: bool,
    font: bool,
    layout: bool,
    title: Option<Seq<char>>,
    macos: bool,
    opaque: bool,
    blur: bool,
}

impl ConfigParts {
    /// Where the theme is asked for.
    spec fn theme(self) -> int {
        self.tabs + one_if(self.cursor) + one_if(self.scale) + one_if(self.font)
    }

    /// Where the transparency is asked for.
    spec fn surface(self) -> int {
        self.theme() + 1 + one_if(self.layout) + one_if(self.title is Some) + 2 * one_if(self.macos)
    }

    /// The effects stand where they belong.
    spec fn stand_in(self, a: Seq<EffectModel>) -> bool {
        let scale = self.tabs + one_if(self.cursor);
        let layout = self.theme() + 1;
        let title = layout + one_if(self.layout);
        let shadow = title + one_if(self.title is Some);
        &&& self.tabs >= 0
        &&& a.len() == self.surface() + 3
        &&& forall|i: int|
            0 <= i < self.tabs ==> #[trigger] a[i] == (EffectModel::SetTerminalOptions { tab: i })
        &&& self.cursor ==> a[self.tabs] == EffectModel::SetCursorDirty
        &&& self.scale ==> a[scale] == EffectModel::ScaleFontSize
        &&& self.font ==> a[scale + one_if(self.scale)] == EffectModel::SetFont
        &&& a[self.theme()] == EffectModel::SetTheme
        &&& self.layout ==> a[layout] == EffectModel::RequestDisplayUpdate
        &&& self.title matches Some(t) ==> a[title] == (EffectModel::SetTitle { title: t })
        &&& self.macos ==> a[shadow] == (EffectModel::SetHasShadow { has_shadow: self.opaque })
        &&& self.macos ==> a[shadow + 1] == EffectModel::SetOptionAsAlt
        &&& a[self.surface()] == (EffectModel::SetTransparent { transparent: !self.opaque })
        &&& a[self.surface() + 1] == (EffectModel::SetBlur { blur: self.blur })
        &&& a[self.surface() + 2] == EffectModel::UpdateHintAlphabet
    }
}

spec fn config_parts<H, E>(w: WindowModel<H, E>, old: ConfigModel, diff: ConfigDiff) -> ConfigParts {
    ConfigParts {
        tabs: w.tabs.len() as int,
        cursor: diff.cursor_thickness_changed,
        scale: diff.font_changed && diff.font_size_untouched,
        font: diff.font_changed,
        layout: lays_out_anew(w, old, diff),
        title: if titles_anew(w, old) {
            Some(w.config.title)
        } else {
            None
        },
        macos: w.display.window.macos,
        opaque: w.config.opaque,
        blur: w.config.blur,
    }
}

proof fn lemma_parts_stand<H, E>(w: WindowModel<H, E>, old: ConfigModel, diff: ConfigDiff)
    ensures
        config_parts(w, old, diff).stand_in(asked(w, w.config_applied(old, diff))),
{
    law_config_reloads(w, old, diff);
    law_config_settles(w, old, diff);
}

proof fn lemma_only_surface(b: Seq<EffectModel>, a: Seq<EffectModel>, parts: ConfigParts)
    requires
        parts.stand_in(b),
        a == seq![EffectModel::UpdateDisplayConfig] + b,
    ensures
        only_one(a, |e: EffectModel| e is SetBlur, EffectModel::SetBlur { blur: parts.blur }),
        only_one(
            a,
            |e: EffectModel| e is SetTransparent,
            EffectModel::SetTransparent { transparent: !parts.opaque },
        ),
        only_one(a, |e: EffectModel| e is SetTheme, EffectModel::SetTheme),
        parts.macos ==> only_one(
            a,
            |e: EffectModel| e is SetHasShadow,
            EffectModel::SetHasShadow { has_shadow: parts.opaque },
        ),
        !parts.macos ==> forall|i: int|
            0 <= i < a.len() ==> !(#[trigger] a[i] is SetHasShadow) && !(a[i] is SetOptionAsAlt),
{
    lemma_kinds(b, parts);
    let surface = parts.surface();
    let theme = parts.theme();
    lemma_prefixed_once(b, a, |e: EffectModel| e is SetTransparent, surface);
    lemma_prefixed_once(b, a, |e: EffectModel| e is SetBlur, surface + 1);
    lemma_prefixed_once(b, a, |e: EffectModel| e is SetTheme, theme);
    if parts.macos {
        lemma_prefixed_once(b, a, |e: EffectModel| e is SetHasShadow, surface - 2);
    } else {
        assert forall|i: int| 0 <= i < a.len() implies !(#[trigger] a[i] is SetHasShadow) && !(a[i]
            is SetOptionAsAlt) by {
            if i > 0 {
                assert(a[i] == b[i - 1]);
            }
        }
    }
}

/// Where effects of these kinds can stand.
proof fn lemma_kinds(b: Seq<EffectModel>, parts: ConfigParts)
    requires
        parts.stand_in(b),
    ensures
        b[parts.surface()] == (EffectModel::SetTransparent { transparent: !parts.opaque }),
        b[parts.surface() + 1] == (EffectModel::SetBlur { blur: parts.blur }),
        b[parts.theme()] == EffectModel::SetTheme,
        parts.macos ==> b[parts.surface() - 2] == (EffectModel::SetHasShadow {
            has_shadow: parts.opaque,
        }),
        0 <= parts.theme() < parts.surface() - 2 * one_if(parts.macos),
        parts.surface() + 3 == b.len(),
        forall|j: int|
            0 <= j < b.len() ==> {
                let e = #[trigger] b[j];
                &&& e is SetTransparent ==> j == parts.surface()
                &&& e is SetBlur ==> j == parts.surface() + 1
                &&& e is SetTheme ==> j == parts.theme()
                &&& e is SetHasShadow ==> parts.macos && j == parts.surface() - 2
                &&& e is SetOptionAsAlt ==> parts.macos
            },
{
}

proof fn lemma_prefixed_once(
    b: Seq<EffectModel>,
    a: Seq<EffectModel>,
    of_kind: spec_fn(EffectModel) -> bool,
    k: int,
)
    requires
        a == seq![EffectModel::UpdateDisplayConfig] + b,
        0 <= k < b.len(),
        !of_kind(EffectModel::UpdateDisplayConfig),
        forall|j: int| 0 <= j < b.len() && of_kind(#[trigger] b[j]) ==> j == k,
    ensures
        only_one(a, of_kind, b[k]),
{
    assert(a[k + 1] == b[k]);
    assert forall|j: int| 0 <= j < a.len() && of_kind(#[trigger] a[j]) implies j == k + 1 by {
        if j > 0 {
            assert(a[j] == b[j - 1]);
        }
    }
}

proof fn lemma_font_parts(a: Seq<EffectModel>, parts: ConfigParts)
    requires
        parts.stand_in(a),
    ensures
        in_order(a, EffectModel::ScaleFontSize, EffectModel::SetFont),
        a.contains(EffectModel::SetFont) <==> parts.font,
        a.contains(EffectModel::ScaleFontSize) <==> parts.scale,
        a.contains(EffectModel::SetCursorDirty) <==> parts.cursor,
{
    let scale = parts.tabs + one_if(parts.cursor);
    if parts.cursor {
        assert(a.contains(a[parts.tabs]));
    }
    if parts.scale {
        assert(a.contains(a[scale]));
    }
    if parts.font {
        assert(a.contains(a[scale + one_if(parts.scale)]));
    }
}

proof fn lemma_config_parts<H, E>(w: WindowModel<H, E>, old: ConfigModel, diff: ConfigDiff)
    ensures
        asked(w, w.config_applied(old, diff)) == w.config_effects(old, diff),
        w.layout_changed(old, diff) == lays_out_anew(w, old, diff),
        w.takes_config_title(old) == titles_anew(w, old),
        w.config_applied(old, diff).effects == w.effects + w.config_effects(old, diff),
{
    assert(asked(w, w.config_applied(old, diff)) =~= w.config_effects(old, diff));
}

} // verus!
