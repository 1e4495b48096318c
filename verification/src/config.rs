//! Changes of a window's configuration.
//!
//! A change takes two steps: the window takes on the configuration and hands it to the display, and
//! once the display has applied it, the window asks for what else the change makes necessary.

use std::rc::Rc;

use vstd::prelude::*;

use crate::display::{ConfigDiff, ConfigModel, UiConfig};
use crate::effect::{effect_if, texts, Effect, EffectModel};
use crate::window_context::{QueuedEvent, WindowContext, WindowModel};

verus! {

impl<H, E> WindowModel<H, E> {
    /// Whether the window takes on the title of its configuration, which has replaced `old`: the
    /// title follows nothing, or nothing has changed the one that `old` gave.
    pub open spec fn takes_config_title(self, old: ConfigModel) -> bool {
        !self.preserve_title && (!self.config.dynamic_title || self.display.window.title
            == old.title)
    }

    /// Whether the padding or the steps of resizing differ between `old` and the window's
    /// configuration.
    pub open spec fn layout_changed(self, old: ConfigModel, diff: ConfigDiff) -> bool {
        ||| diff.padding_changed
        ||| old.dynamic_padding != self.config.dynamic_padding
        ||| old.resize_increments != self.config.resize_increments
    }

    /// The window after it took on the configuration `config`.
    pub open spec fn config_replaced(self, config: ConfigModel) -> Self {
        WindowModel { config, ..self }.asking(seq![EffectModel::UpdateDisplayConfig])
    }

    /// What is asked of the terminals, the cursor, the font and the theme under a new
    /// configuration.
    pub open spec fn reload_effects(self, diff: ConfigDiff) -> Seq<EffectModel> {
        Seq::new(self.tabs.len(), |i: int| EffectModel::SetTerminalOptions { tab: i }) + effect_if(
            diff.cursor_thickness_changed,
            EffectModel::SetCursorDirty,
        ) + effect_if(
            diff.font_changed && diff.font_size_untouched,
            EffectModel::ScaleFontSize,
        ) + effect_if(diff.font_changed, EffectModel::SetFont) + seq![EffectModel::SetTheme]
    }

    /// What is asked of the window's surface under a new configuration. A shadow and an option key
    /// exist on macOS only.
    pub open spec fn surface_effects(self) -> Seq<EffectModel> {
        effect_if(
            self.display.window.macos,
            EffectModel::SetHasShadow { has_shadow: self.config.opaque },
        ) + effect_if(self.display.window.macos, EffectModel::SetOptionAsAlt) + seq![
            EffectModel::SetTransparent { transparent: !self.config.opaque },
            EffectModel::SetBlur { blur: self.config.blur },
            EffectModel::UpdateHintAlphabet,
        ]
    }

    /// All that is asked for once the display has applied the configuration that replaced `old`.
    pub open spec fn config_effects(self, old: ConfigModel, diff: ConfigDiff) -> Seq<EffectModel> {
        self.reload_effects(diff) + effect_if(
            self.layout_changed(old, diff),
            EffectModel::RequestDisplayUpdate,
        ) + effect_if(
            self.takes_config_title(old),
            EffectModel::SetTitle { title: self.config.title },
        ) + self.surface_effects()
    }

    /// The window once the display has applied the configuration that replaced `old`.
    pub open spec fn config_applied(self, old: ConfigModel, diff: ConfigDiff) -> Self {
        let display = if self.layout_changed(old, diff) {
            self.display.awaiting_update()
        } else {
            self.display
        };
        WindowModel {
            display: if self.takes_config_title(old) {
                display.with_title(self.config.title)
            } else {
                display
            },
            event_queue: self.event_queue.push(QueuedEvent::CursorBlinkingChange),
            dirty: true,
            ..self
        }.asking(self.config_effects(old, diff))
    }

    /// The window after both steps of a change to the configuration `config`, by which the display
    /// has not changed what the window knows of it.
    pub open spec fn config_updated(self, config: ConfigModel, diff: ConfigDiff) -> Self {
        self.config_replaced(config).config_applied(self.config, diff)
    }

    /// The window with `options` for its overrides, rid of messages about earlier ones.
    pub open spec fn overridden_by(self, options: Seq<Seq<char>>) -> Self {
        WindowModel { window_config: options, ..self }.asking(
            seq![EffectModel::RemoveIpcConfigMessages],
        )
    }
}

proof fn lemma_concatenation<T>(a: Seq<T>, b: Seq<T>, c: Seq<T>, d: Seq<T>, e: Seq<T>)
    ensures
        a + b + (c + d) + e == a + (b + c + d + e),
{
    assert(a + b + (c + d) + e =~= a + (b + c + d + e));
}

impl<H, E> WindowContext<H, E> {
    /// Update the terminal window to the latest config, to which the window's overrides have been
    /// applied, and hand it to the display. Returns the configuration that it replaced, for
    /// [`WindowContext::config_applied`].
    pub fn update_config(&mut self, new_config: Rc<UiConfig>) -> (r: Rc<UiConfig>)
        ensures
            r@ == old(self)@.config,
            final(self)@ == old(self)@.config_replaced(new_config@),
    {
        let mut config = new_config;
        std::mem::swap(&mut config, &mut self.config);
        self.ask(Effect::UpdateDisplayConfig);
        config
    }

    /// Asks for what a new configuration changes in the terminals, the cursor, the font and the
    /// theme.
    fn reload(&mut self, diff: ConfigDiff)
        ensures
            final(self)@ == old(self)@.asking(old(self)@.reload_effects(diff)),
    {
        let ghost before = self@;

        // Update all tab terminals.
        let ghost options = |n: nat|
            Seq::new(n, |i: int| EffectModel::SetTerminalOptions { tab: i });
        let mut i: usize = 0;
        assert(self@.effects =~= before.effects + options(0));
        while i < self.tabs.len()
            invariant
                i <= self.tabs.len(),
                self.tabs.len() == before.tabs.len(),
                options == (|n: nat|
                    Seq::new(n, |i: int| EffectModel::SetTerminalOptions { tab: i })),
                self@ == before.asking(options(i as nat)),
            decreases self.tabs.len() - i,
        {
            self.ask(Effect::SetTerminalOptions { tab: i });
            i += 1;
            assert(self@.effects =~= before.effects + options(i as nat));
        }

        // Reload cursor if its thickness has changed.
        if diff.cursor_thickness_changed {
            self.ask(Effect::SetCursorDirty);
        }
        if diff.font_changed {
            // Do not update font size if it has been changed at runtime.
            if diff.font_size_untouched {
                self.ask(Effect::ScaleFontSize);
            }
            self.ask(Effect::SetFont);
        }
        // Always reload the theme to account for auto-theme switching.
        self.ask(Effect::SetTheme);
        assert(self@.effects =~= before.effects + before.reload_effects(diff));
    }

    /// Asks for what the configuration that replaced `old_config` changes in the layout and the
    /// title.
    fn update_layout_and_title(&mut self, old_config: &UiConfig, diff: ConfigDiff)
        ensures
            ({
                let before = old(self)@;
                let display = if before.layout_changed(old_config@, diff) {
                    before.display.awaiting_update()
                } else {
                    before.display
                };
                final(self)@ == (WindowModel {
                    display: if before.takes_config_title(old_config@) {
                        display.with_title(before.config.title)
                    } else {
                        display
                    },
                    ..before
                }).asking(
                    effect_if(
                        before.layout_changed(old_config@, diff),
                        EffectModel::RequestDisplayUpdate,
                    ) + effect_if(
                        before.takes_config_title(old_config@),
                        EffectModel::SetTitle { title: before.config.title },
                    ),
                )
            }),
    {
        // Update display if either padding options or resize increments were changed.
        if diff.padding_changed || old_config.dynamic_padding != self.config.dynamic_padding
            || old_config.resize_increments != self.config.resize_increments {
            self.display.update_pending = true;
            self.ask(Effect::RequestDisplayUpdate);
        }
        // Update title on config reload.
        if !self.preserve_title && (!self.config.dynamic_title || self.display.window.title
            == old_config.title) {
            self.set_title(self.config.title.clone());
        }
        assert(self@.effects =~= old(self)@.effects + (effect_if(
            old(self)@.layout_changed(old_config@, diff),
            EffectModel::RequestDisplayUpdate,
        ) + effect_if(
            old(self)@.takes_config_title(old_config@),
            EffectModel::SetTitle { title: old(self)@.config.title },
        )));
    }

    /// Asks for what a new configuration changes in the window's surface.
    fn update_surface(&mut self)
        ensures
            final(self)@ == old(self)@.asking(old(self)@.surface_effects()),
    {
        let opaque: bool = self.config.opaque;
        if self.display.window.macos {
            self.ask(Effect::SetHasShadow { has_shadow: opaque });
            self.ask(Effect::SetOptionAsAlt);
        }
        self.ask(Effect::SetTransparent { transparent: !opaque });
        self.ask(Effect::SetBlur { blur: self.config.blur });
        self.ask(Effect::UpdateHintAlphabet);
        assert(self@.effects =~= old(self)@.effects + old(self)@.surface_effects());
    }

    /// Goes on with a change of the configuration, once the display has applied it. `old_config` is
    /// the configuration that was replaced, and `diff` compares it with the current one.
    pub fn config_applied(&mut self, old_config: &UiConfig, diff: ConfigDiff)
        ensures
            final(self)@ == old(self)@.config_applied(old_config@, diff),
    {
        self.reload(diff);
        self.update_layout_and_title(old_config, diff);
        self.update_surface();

        // Update cursor blinking.
        self.event_queue.push(QueuedEvent::CursorBlinkingChange);
        self.dirty = true;
        proof {
            let before = old(self)@;
            lemma_concatenation(
                before.effects,
                before.reload_effects(diff),
                effect_if(
                    before.layout_changed(old_config@, diff),
                    EffectModel::RequestDisplayUpdate,
                ),
                effect_if(
                    before.takes_config_title(old_config@),
                    EffectModel::SetTitle { title: before.config.title },
                ),
                before.surface_effects(),
            );
        }
    }

    /// Get reference to the window's configuration.
    pub fn config(&self) -> (r: &UiConfig)
        ensures
            *r == *self.config,
            r@ == self@.config,
    {
        &*self.config
    }

    /// Clear the window config overrides, and update to `config`, the configuration without
    /// overrides. Returns the configuration that it replaced, for
    /// [`WindowContext::config_applied`].
    pub fn reset_window_config(&mut self, config: Rc<UiConfig>) -> (r: Rc<UiConfig>)
        ensures
            r@ == old(self)@.config,
            final(self)@ == old(self)@.overridden_by(Seq::empty()).config_replaced(config@),
            final(self)@.window_config.len() == 0,
            final(self)@.config == config@,
    {
        self.ask(Effect::RemoveIpcConfigMessages);
        self.window_config.clear();
        assert(texts(self.window_config@) =~= Seq::<Seq<char>>::empty());
        self.update_config(config)
    }

    /// The window's overrides, followed by `options`.
    pub fn overrides_with(&self, options: &Vec<String>) -> (r: Vec<String>)
        ensures
            texts(r@) == self@.window_config + texts(options@),
    {
        let mut r: Vec<String> = self.window_config.clone();
        r.extend_from_slice(options.as_slice());
        assert(texts(r@) =~= self@.window_config + texts(options@));
        r
    }

    /// Add new window config overrides, and update to `config`, the configuration with all
    /// overrides applied, the new ones last. Returns the configuration that it replaced, for
    /// [`WindowContext::config_applied`].
    pub fn add_window_config(&mut self, config: Rc<UiConfig>, options: &Vec<String>) -> (r: Rc<
        UiConfig,
    >)
        ensures
            r@ == old(self)@.config,
            final(self)@ == old(self)@.overridden_by(
                old(self)@.window_config + texts(options@),
            ).config_replaced(config@),
            final(self)@.window_config == old(self)@.window_config + texts(options@),
            final(self)@.config == config@,
    {
        self.ask(Effect::RemoveIpcConfigMessages);
        self.window_config = self.overrides_with(options);
        self.update_config(config)
    }
}

} // verus!
