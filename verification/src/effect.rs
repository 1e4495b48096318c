//! What a window asks of the world around it.

use vstd::prelude::*;

use crate::display::SizeInfo;

verus! {

/// What the display needs to draw besides the terminal.
#[derive(Clone, Debug, PartialEq, Eq)]
pub struct Frame {
    /// Titles of the tabs, from left to right.
    pub tab_titles: Vec<String>,
    /// Index of the active tab.
    pub active_tab: usize,
    /// Whether the tab bar is hidden.
    pub tab_bar_hidden: bool,
    /// The dragged tab and the position of the pointer, while a tab is dragged.
    pub drag: Option<(usize, u64)>,
}

/// The mathematical model of a [`Frame`].
#[verifier::ext_equal]
pub struct FrameModel {
    pub tab_titles: Seq<Seq<char>>,
    pub active_tab: int,
    pub tab_bar_hidden: bool,
    pub drag: Option<(usize, u64)>,
}

/// The texts of a sequence of strings.
pub open spec fn texts(strings: Seq<String>) -> Seq<Seq<char>> {
    strings.map_values(|s: String| s@)
}

impl View for Frame {
    type V = FrameModel;

    open spec fn view(&self) -> FrameModel {
        FrameModel {
            tab_titles: texts(self.tab_titles@),
            active_tab: self.active_tab as int,
            tab_bar_hidden: self.tab_bar_hidden,
            drag: self.drag,
        }
    }
}

/// Something that a window asks of its display, of a tab's terminal or of a tab's PTY.
///
/// Effects are carried out in the order in which they were asked for, and before the next call
/// that rearranges the tabs. A field `tab` is the index of a tab in its window.
#[derive(Clone, Debug, PartialEq, Eq)]
pub enum Effect {
    /// Set the focus flag of a tab's terminal.
    SetTerminalFocus { tab: usize, focused: bool },
    /// Send bytes to a tab's PTY.
    Notify { tab: usize, bytes: Vec<u8> },
    /// Tell a tab's PTY the size of its terminal.
    NotifyResize { tab: usize, size: SizeInfo },
    /// Resize a tab's terminal.
    ResizeTerminal { tab: usize, size: SizeInfo },
    /// Apply the options of the current configuration to a tab's terminal.
    SetTerminalOptions { tab: usize },
    /// Scroll a tab's viewport up by a number of lines.
    ScrollDisplay { tab: usize, delta: i32 },
    /// Tell the event loop that the cursor's blinking changed, on behalf of a tab.
    SendCursorBlinkingChange { tab_id: usize },
    /// Have the next frame drawn in full.
    MarkFullyDamaged,
    /// Resize the table of damaged lines.
    ResizeDamage { size: SizeInfo },
    /// Note that changes of the display wait to be applied.
    RequestDisplayUpdate,
    /// Change the title of the window.
    SetTitle { title: String },
    /// Hand the current configuration to the display.
    UpdateDisplayConfig,
    /// Note that the cursor has to be loaded again.
    SetCursorDirty,
    /// Take the font size from the current configuration.
    ScaleFontSize,
    /// Load the font of the current configuration at the font size in use.
    SetFont,
    /// Apply the theme of the current configuration.
    SetTheme,
    /// Give the window a shadow or not.
    SetHasShadow { has_shadow: bool },
    /// Let the option key act as the current configuration says.
    SetOptionAsAlt,
    /// Let the background shine through the window or not.
    SetTransparent { transparent: bool },
    /// Blur the background of the window or not.
    SetBlur { blur: bool },
    /// Take the alphabet of hints from the current configuration.
    UpdateHintAlphabet,
    /// Remove the messages about options that were sent to this window.
    RemoveIpcConfigMessages,
    /// Forget that a frame was asked for.
    ClearRedrawRequest,
    /// Ask the platform for a frame.
    RequestRedraw,
    /// Apply changes of the renderer that wait.
    ProcessRendererUpdate,
    /// Draw the active tab's terminal.
    DrawFrame { frame: Frame },
}

/// The mathematical model of an [`Effect`].
#[verifier::ext_equal]
pub enum EffectModel {
    SetTerminalFocus { tab: int, focused: bool },
    Notify { tab: int, bytes: Seq<u8> },
    NotifyResize { tab: int, size: SizeInfo },
    ResizeTerminal { tab: int, size: SizeInfo },
    SetTerminalOptions { tab: int },
    ScrollDisplay { tab: int, delta: int },
    SendCursorBlinkingChange { tab_id: usize },
    MarkFullyDamaged,
    ResizeDamage { size: SizeInfo },
    RequestDisplayUpdate,
    SetTitle { title: Seq<char> },
    UpdateDisplayConfig,
    SetCursorDirty,
    ScaleFontSize,
    SetFont,
    SetTheme,
    SetHasShadow { has_shadow: bool },
    SetOptionAsAlt,
    SetTransparent { transparent: bool },
    SetBlur { blur: bool },
    UpdateHintAlphabet,
    RemoveIpcConfigMessages,
    ClearRedrawRequest,
    RequestRedraw,
    ProcessRendererUpdate,
    DrawFrame { frame: FrameModel },
}

impl View for Effect {
    type V = EffectModel;

    open spec fn view(&self) -> EffectModel {
        match *self {
            Effect::SetTerminalFocus { tab, focused } => EffectModel::SetTerminalFocus {
                tab: tab as int,
                focused,
            },
            Effect::Notify { tab, bytes } => EffectModel::Notify { tab: tab as int, bytes: bytes@ },
            Effect::NotifyResize { tab, size } => EffectModel::NotifyResize {
                tab: tab as int,
                size,
            },
            Effect::ResizeTerminal { tab, size } => EffectModel::ResizeTerminal {
                tab: tab as int,
                size,
            },
            Effect::SetTerminalOptions { tab } => EffectModel::SetTerminalOptions {
                tab: tab as int,
            },
            Effect::ScrollDisplay { tab, delta } => EffectModel::ScrollDisplay {
                tab: tab as int,
                delta: delta as int,
            },
            Effect::SendCursorBlinkingChange { tab_id } => EffectModel::SendCursorBlinkingChange {
                tab_id,
            },
            Effect::MarkFullyDamaged => EffectModel::MarkFullyDamaged,
            Effect::ResizeDamage { size } => EffectModel::ResizeDamage { size },
            Effect::RequestDisplayUpdate => EffectModel::RequestDisplayUpdate,
            Effect::SetTitle { title } => EffectModel::SetTitle { title: title@ },
            Effect::UpdateDisplayConfig => EffectModel::UpdateDisplayConfig,
            Effect::SetCursorDirty => EffectModel::SetCursorDirty,
            Effect::ScaleFontSize => EffectModel::ScaleFontSize,
            Effect::SetFont => EffectModel::SetFont,
            Effect::SetTheme => EffectModel::SetTheme,
            Effect::SetHasShadow { has_shadow } => EffectModel::SetHasShadow { has_shadow },
            Effect::SetOptionAsAlt => EffectModel::SetOptionAsAlt,
            Effect::SetTransparent { transparent } => EffectModel::SetTransparent { transparent },
            Effect::SetBlur { blur } => EffectModel::SetBlur { blur },
            Effect::UpdateHintAlphabet => EffectModel::UpdateHintAlphabet,
            Effect::RemoveIpcConfigMessages => EffectModel::RemoveIpcConfigMessages,
            Effect::ClearRedrawRequest => EffectModel::ClearRedrawRequest,
            Effect::RequestRedraw => EffectModel::RequestRedraw,
            Effect::ProcessRendererUpdate => EffectModel::ProcessRendererUpdate,
            Effect::DrawFrame { frame } => EffectModel::DrawFrame { frame: frame@ },
        }
    }
}

/// The models of a sequence of effects.
pub open spec fn effect_models(effects: Seq<Effect>) -> Seq<EffectModel> {
    effects.map_values(|e: Effect| e@)
}

/// The effect `e` alone if `condition` holds, and nothing otherwise.
pub open spec fn effect_if(condition: bool, e: EffectModel) -> Seq<EffectModel> {
    if condition {
        seq![e]
    } else {
        seq![]
    }
}

} // verus!
