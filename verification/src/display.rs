//! What a window knows of its display, its configuration and its options.

use vstd::prelude::*;

verus! {

/// Size of a viewport, in cells.
#[derive(Clone, Copy, Debug, PartialEq, Eq, Structural)]
pub struct SizeInfo {
    /// Number of columns.
    pub columns: usize,
    /// Number of lines.
    pub screen_lines: usize,
}

/// What a window context reads of the platform's window.
#[derive(Clone, Debug, PartialEq, Eq)]
pub struct Window {
    /// Identifier of the window.
    pub id: u64,
    /// Title of the window.
    pub title: String,
    /// Whether the platform is ready to show a frame.
    pub has_frame: bool,
    /// Whether the platform is macOS, where windows have a shadow and keyboards an option key.
    pub macos: bool,
}

/// What a window context reads of its display.
#[derive(Clone, Debug, PartialEq, Eq)]
pub struct Display {
    /// The platform's window.
    pub window: Window,
    /// Size of the terminal area.
    pub size_info: SizeInfo,
    /// Whether changes of the display wait to be applied, as it was last seen, or because the window
    /// has since asked for an update of the display. That it has asked for another font or cursor
    /// shows here only once the display is read again.
    pub update_pending: bool,
}

/// The mathematical model of a [`Window`].
#[verifier::ext_equal]
pub struct WindowState {
    pub id: u64,
    pub title: Seq<char>,
    pub has_frame: bool,
    pub macos: bool,
}

/// The mathematical model of a [`Display`].
#[verifier::ext_equal]
pub struct DisplayModel {
    pub window: WindowState,
    pub size_info: SizeInfo,
    pub update_pending: bool,
}

impl View for Window {
    type V = WindowState;

    open spec fn view(&self) -> WindowState {
        WindowState {
            id: self.id,
            title: self.title@,
            has_frame: self.has_frame,
            macos: self.macos,
        }
    }
}

impl View for Display {
    type V = DisplayModel;

    open spec fn view(&self) -> DisplayModel {
        DisplayModel {
            window: self.window@,
            size_info: self.size_info,
            update_pending: self.update_pending,
        }
    }
}

impl DisplayModel {
    /// The display with changes that wait to be applied.
    pub open spec fn awaiting_update(self) -> Self {
        DisplayModel { update_pending: true, ..self }
    }

    /// The display with its window under another title.
    pub open spec fn with_title(self, title: Seq<char>) -> Self {
        DisplayModel { window: WindowState { title, ..self.window }, ..self }
    }
}

/// What a window context reads of the user interface's configuration.
#[derive(Clone, Debug, PartialEq, Eq)]
pub struct UiConfig {
    /// Whether the window's title follows the active tab.
    pub dynamic_title: bool,
    /// Title of a window whose title follows nothing.
    pub title: String,
    /// Whether the padding spreads what the cells leave over.
    pub dynamic_padding: bool,
    /// Whether the window is resized in steps of a cell.
    pub resize_increments: bool,
    /// Whether the background of the window is blurred.
    pub blur: bool,
    /// Whether nothing shines through the window.
    pub opaque: bool,
    /// Whether the cursor blinks.
    pub cursor_blinking: bool,
}

/// The mathematical model of a [`UiConfig`].
#[verifier::ext_equal]
pub struct ConfigModel {
    pub dynamic_title: bool,
    pub title: Seq<char>,
    pub dynamic_padding: bool,
    pub resize_increments: bool,
    pub blur: bool,
    pub opaque: bool,
    pub cursor_blinking: bool,
}

impl View for UiConfig {
    type V = ConfigModel;

    open spec fn view(&self) -> ConfigModel {
        ConfigModel {
            dynamic_title: self.dynamic_title,
            title: self.title@,
            dynamic_padding: self.dynamic_padding,
            resize_increments: self.resize_increments,
            blur: self.blur,
            opaque: self.opaque,
            cursor_blinking: self.cursor_blinking,
        }
    }
}

/// How two configurations compare in what is measured in fractions.
#[derive(Clone, Copy, Debug, PartialEq, Eq, Structural)]
pub struct ConfigDiff {
    /// The thickness of the cursor differs.
    pub cursor_thickness_changed: bool,
    /// The font differs.
    pub font_changed: bool,
    /// The font size in use is the one that the replaced configuration asked for.
    pub font_size_untouched: bool,
    /// The padding differs.
    pub padding_changed: bool,
}

/// Options that a window or a tab is opened with.
#[derive(Clone, Debug, PartialEq, Eq)]
pub struct WindowOptions {
    /// Title that was asked for.
    pub title: Option<String>,
    /// Directory in which the shell starts, as the bytes of its path.
    pub working_directory: Option<Vec<u8>>,
}

impl WindowOptions {
    /// Options of a tab that starts where another one is, if that place could be found.
    pub fn starting_in<R>(working_directory: Result<Vec<u8>, R>) -> (r: Self)
        ensures
            r.title is None,
            match working_directory {
                Ok(path) => r.working_directory == Some(path),
                Err(_) => r.working_directory is None,
            },
    {
        match working_directory {
            Ok(path) => WindowOptions { title: None, working_directory: Some(path) },
            Err(_) => WindowOptions { title: None, working_directory: None },
        }
    }
}

/// How far the dragging of a tab has come. A press that has not become a drag is `Idle`.
#[derive(Clone, Copy, Debug, PartialEq, Eq, Structural)]
pub enum TabDragState {
    /// No tab is dragged.
    Idle,
    /// A tab is dragged.
    Dragging {
        /// Index of the tab.
        tab_index: usize,
        /// Horizontal position of the pointer, in the encoding that the display uses.
        current_x: u64,
    },
}

} // verus!
