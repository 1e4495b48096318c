//! Laws of the mathematical models: each says of a value what the value holds.

use vstd::prelude::*;

use crate::display::{Display, UiConfig};
use crate::effect::{Effect, EffectModel, Frame};
use crate::ref_test::RefTestFile;
use crate::tab::Tab;
use crate::window_context::WindowContext;

verus! {

/// The model of a tab holds what the tab holds.
pub proof fn law_tab_model<H>(tab: Tab<H>)
    ensures
        tab@.id == tab.id,
        tab@.terminal == tab.terminal,
        tab@.handle == tab.handle,
        tab@.title == tab.title@,
        tab@.search_state == tab.search_state,
        tab@.master_fd == tab.master_fd,
        tab@.shell_pid == tab.shell_pid,
{
}

/// The model of a display holds what the display holds.
pub proof fn law_display_model(display: Display)
    ensures
        display@.window.id == display.window.id,
        display@.window.title == display.window.title@,
        display@.window.has_frame == display.window.has_frame,
        display@.window.macos == display.window.macos,
        display@.size_info == display.size_info,
        display@.update_pending == display.update_pending,
{
}

/// The model of a configuration holds what the configuration holds.
pub proof fn law_config_model(config: UiConfig)
    ensures
        config@.dynamic_title == config.dynamic_title,
        config@.title == config.title@,
        config@.dynamic_padding == config.dynamic_padding,
        config@.resize_increments == config.resize_increments,
        config@.blur == config.blur,
        config@.opaque == config.opaque,
        config@.cursor_blinking == config.cursor_blinking,
{
}

/// The model of a frame holds what the frame holds.
pub proof fn law_frame_model(frame: Frame)
    ensures
        frame@.tab_titles.len() == frame.tab_titles@.len(),
        forall|i: int|
            0 <= i < frame.tab_titles@.len() ==> #[trigger] frame@.tab_titles[i]
                == frame.tab_titles@[i]@,
        frame@.active_tab == frame.active_tab,
        frame@.tab_bar_hidden == frame.tab_bar_hidden,
        frame@.drag == frame.drag,
{
}

/// The model of a recorded file holds its path and its contents.
pub proof fn law_file_model(file: RefTestFile)
    ensures
        file@.0 == file.path@,
        file@.1 == file.contents@,
{
}

/// The model of an effect is the same effect on the same tab, with the same values.
pub proof fn law_effect_model(e: Effect)
    ensures
        match e {
            Effect::SetTerminalFocus { tab, focused } => e@ matches EffectModel::SetTerminalFocus {
                tab: t,
                focused: f,
            } && t == tab && f == focused,
            Effect::Notify { tab, bytes } => e@ matches EffectModel::Notify { tab: t, bytes: b } && t
                == tab && b == bytes@,
            Effect::NotifyResize { tab, size } => e@ matches EffectModel::NotifyResize {
                tab: t,
                size: s,
            } && t == tab && s == size,
            Effect::ResizeTerminal { tab, size } => e@ matches EffectModel::ResizeTerminal {
                tab: t,
                size: s,
            } && t == tab && s == size,
            Effect::SetTerminalOptions { tab } => e@ matches EffectModel::SetTerminalOptions {
                tab: t,
            } && t == tab,
            Effect::ScrollDisplay { tab, delta } => e@ matches EffectModel::ScrollDisplay {
                tab: t,
                delta: d,
            } && t == tab && d == delta,
            Effect::SendCursorBlinkingChange { tab_id } => {
                e@ matches EffectModel::SendCursorBlinkingChange { tab_id: t } && t == tab_id
            },
            Effect::MarkFullyDamaged => e@ is MarkFullyDamaged,
            Effect::ResizeDamage { size } => e@ matches EffectModel::ResizeDamage { size: s } && s
                == size,
            Effect::RequestDisplayUpdate => e@ is RequestDisplayUpdate,
            Effect::SetTitle { title } => e@ matches EffectModel::SetTitle { title: t } && t
                == title@,
            Effect::UpdateDisplayConfig => e@ is UpdateDisplayConfig,
            Effect::SetCursorDirty => e@ is SetCursorDirty,
            Effect::ScaleFontSize => e@ is ScaleFontSize,
            Effect::SetFont => e@ is SetFont,
            Effect::SetTheme => e@ is SetTheme,
            Effect::SetHasShadow { has_shadow } => e@ matches EffectModel::SetHasShadow {
                has_shadow: s,
            } && s == has_shadow,
            Effect::SetOptionAsAlt => e@ is SetOptionAsAlt,
            Effect::SetTransparent { transparent } => e@ matches EffectModel::SetTransparent {
                transparent: t,
            } && t == transparent,
            Effect::SetBlur { blur } => e@ matches EffectModel::SetBlur { blur: b } && b == blur,
            Effect::UpdateHintAlphabet => e@ is UpdateHintAlphabet,
            Effect::RemoveIpcConfigMessages => e@ is RemoveIpcConfigMessages,
            Effect::ClearRedrawRequest => e@ is ClearRedrawRequest,
            Effect::RequestRedraw => e@ is RequestRedraw,
            Effect::ProcessRendererUpdate => e@ is ProcessRendererUpdate,
            Effect::DrawFrame { frame } => e@ matches EffectModel::DrawFrame { frame: f } && f
                == frame@,
        },
{
}

/// The model of a window holds what the window holds, its tabs from left to right and what it asked
/// for from the oldest on.
pub proof fn law_window_model<H, E>(w: WindowContext<H, E>)
    ensures
        w@.display == w.display@,
        w@.dirty == w.dirty,
        w@.tab_bar_hidden == w.tab_bar_hidden,
        w@.tabs.len() == w.tabs@.len(),
        forall|i: int| 0 <= i < w.tabs@.len() ==> #[trigger] w@.tabs[i] == w.tabs@[i]@,
        w@.active_tab == w.active_tab,
        w@.event_queue == w.event_queue@,
        w@.hint_highlight_dirty == w.hint_highlight_dirty,
        w@.occluded == w.occluded,
        w@.preserve_title == w.preserve_title,
        w@.drag_state == w.drag_state,
        w@.window_config.len() == w.window_config@.len(),
        forall|i: int|
            0 <= i < w.window_config@.len() ==> #[trigger] w@.window_config[i]
                == w.window_config@[i]@,
        w@.config == w.config@,
        w@.effects.len() == w.effects@.len(),
        forall|i: int| 0 <= i < w.effects@.len() ==> #[trigger] w@.effects[i] == w.effects@[i]@,
{
}

} // verus!
