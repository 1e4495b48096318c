use std::rc::Rc;

use alacritty_tabs::display::{Display, SizeInfo, UiConfig, Window as PlatformWindow};
use alacritty_tabs::tab::{SearchState, Tab, Terminal};
use alacritty_tabs::window_context::WindowContext;
use alacritty_tabs::display::ConfigDiff;
use alacritty_tabs::effect::Effect;
use alacritty_tabs::window_context::QueuedEvent;

type Window = WindowContext<u32, &'static str>;

const SIZE: SizeInfo = SizeInfo { columns: 80, screen_lines: 24 };

fn terminal(is_focused: bool, mode: u32) -> Terminal {
    Terminal {
        is_focused,
        mode,
        screen_lines: 24,
        columns: 80,
        cursor_line: 0,
        vi_cursor_line: 0,
        display_offset: 0,
    }
}

fn tab(id: usize, title: &str) -> Tab<u32> {
    Tab {
        id,
        terminal: terminal(false, 0),
        handle: id as u32 + 1000,
        title: title.to_string(),
        search_state: SearchState::default(),
        master_fd: id as i32,
        shell_pid: id as u32,
    }
}

fn display() -> Display {
    Display {
        window: PlatformWindow { id: 77, title: "start".to_string(), has_frame: true, macos: false },
        size_info: SIZE,
        update_pending: false,
    }
}

fn ui_config(dynamic_title: bool, title: &str) -> UiConfig {
    UiConfig {
        dynamic_title,
        title: title.to_string(),
        dynamic_padding: false,
        resize_increments: false,
        blur: false,
        opaque: true,
        cursor_blinking: false,
    }
}

/// A window with the tabs 10, 11, 12, ... under the given titles, and nothing asked for.
fn window(titles: &[&str], active_tab: usize) -> Window {
    let config = Rc::new(ui_config(true, "Alacritty"));
    let mut window: Window = WindowContext::additional_with_tab(display(), config, tab(10, titles[0]));
    for (i, title) in titles.iter().enumerate().skip(1) {
        window.tabs.push(tab(10 + i, title));
    }
    window.active_tab = active_tab;
    window.dirty = false;
    window.effects.clear();
    window
}

const SAME: ConfigDiff = ConfigDiff {
    cursor_thickness_changed: false,
    font_changed: false,
    font_size_untouched: true,
    padding_changed: false,
};

/// Both steps of a change, by which the display changes nothing that the window knows of it.
fn update_config(w: &mut Window, config: UiConfig, diff: ConfigDiff) {
    let old_config = w.update_config(Rc::new(config));
    w.config_applied(&old_config, diff);
}

#[test]
fn a_new_configuration_reaches_display_and_terminals() {
    let mut w = window(&["a", "b"], 0);
    let mut config = ui_config(true, "Alacritty");
    config.blur = true;
    config.opaque = false;
    update_config(&mut w, config, SAME);
    assert!(w.config().blur);
    assert!(w.dirty);
    assert!(!w.display.update_pending);
    assert_eq!(w.event_queue, [QueuedEvent::CursorBlinkingChange]);
    assert_eq!(
        w.effects,
        [
            Effect::UpdateDisplayConfig,
            Effect::SetTerminalOptions { tab: 0 },
            Effect::SetTerminalOptions { tab: 1 },
            Effect::SetTheme,
            Effect::SetTransparent { transparent: true },
            Effect::SetBlur { blur: true },
            Effect::UpdateHintAlphabet,
        ]
    );
}

#[test]
fn cursor_font_and_padding_are_reloaded() {
    let mut w = window(&["a"], 0);
    let diff = ConfigDiff {
        cursor_thickness_changed: true,
        font_changed: true,
        font_size_untouched: true,
        padding_changed: true,
    };
    update_config(&mut w, ui_config(true, "Alacritty"), diff);
    assert!(w.display.update_pending);
    assert_eq!(
        w.effects[2..7],
        [
            Effect::SetCursorDirty,
            Effect::ScaleFontSize,
            Effect::SetFont,
            Effect::SetTheme,
            Effect::RequestDisplayUpdate,
        ]
    );
}

#[test]
fn a_font_size_changed_at_runtime_stays() {
    let mut w = window(&["a"], 0);
    let diff = ConfigDiff { font_changed: true, font_size_untouched: false, ..SAME };
    update_config(&mut w, ui_config(true, "Alacritty"), diff);
    assert!(w.effects.contains(&Effect::SetFont));
    assert!(!w.effects.contains(&Effect::ScaleFontSize));
}

#[test]
fn padding_options_update_the_display() {
    let mut w = window(&["a"], 0);
    let mut config = ui_config(true, "Alacritty");
    config.dynamic_padding = true;
    update_config(&mut w, config.clone(), SAME);
    assert!(w.effects.contains(&Effect::RequestDisplayUpdate));
    w.effects.clear();
    config.resize_increments = true;
    update_config(&mut w, config.clone(), SAME);
    assert!(w.effects.contains(&Effect::RequestDisplayUpdate));
    w.effects.clear();
    update_config(&mut w, config, SAME);
    assert!(!w.effects.contains(&Effect::RequestDisplayUpdate));
}

#[test]
fn titles_on_reload() {
    let new_title = Effect::SetTitle { title: "New".to_string() };

    // The tabs have set the title, and still do.
    let mut w = window(&["a"], 0);
    update_config(&mut w, ui_config(true, "New"), SAME);
    assert!(!w.effects.contains(&new_title));
    assert_eq!(w.display.window.title, "a");

    // Nothing has changed the title of the old configuration.
    let mut w = window(&["a"], 0);
    w.display.window.title = "Alacritty".to_string();
    update_config(&mut w, ui_config(true, "New"), SAME);
    assert!(w.effects.contains(&new_title));
    assert_eq!(w.display.window.title, "New");

    // The title no longer follows the tabs.
    let mut w = window(&["a"], 0);
    update_config(&mut w, ui_config(false, "New"), SAME);
    assert_eq!(w.display.window.title, "New");

    // The title was fixed.
    let mut w = window(&["a"], 0);
    w.preserve_title = true;
    update_config(&mut w, ui_config(false, "New"), SAME);
    assert_eq!(w.display.window.title, "a");
}

#[test]
fn overrides_add_up_and_are_reset() {
    let mut w = window(&["a"], 0);
    let config = Rc::new(ui_config(true, "Alacritty"));
    let first = vec!["font.size=9".to_string()];
    let second = vec!["window.blur=true".to_string(), "x=1".to_string()];
    let old_config = w.add_window_config(Rc::clone(&config), &first);
    assert_eq!(w.effects, [Effect::RemoveIpcConfigMessages, Effect::UpdateDisplayConfig]);
    w.config_applied(&old_config, SAME);
    assert_eq!(w.overrides_with(&second), ["font.size=9", "window.blur=true", "x=1"]);
    let old_config = w.add_window_config(Rc::clone(&config), &second);
    w.config_applied(&old_config, SAME);
    assert_eq!(w.window_config, ["font.size=9", "window.blur=true", "x=1"]);
    w.effects.clear();
    let old_config = w.reset_window_config(config);
    assert!(w.window_config.is_empty());
    assert_eq!(w.effects, [Effect::RemoveIpcConfigMessages, Effect::UpdateDisplayConfig]);
    w.config_applied(&old_config, SAME);
    assert_eq!(w.event_queue.len(), 3);
}

#[test]
fn the_replaced_configuration_is_handed_back() {
    let mut w = window(&["a"], 0);
    let old_config = w.update_config(Rc::new(ui_config(false, "New")));
    assert_eq!(old_config.title, "Alacritty");
    assert!(old_config.dynamic_title);
    assert_eq!(w.config().title, "New");
    assert_eq!(w.effects, [Effect::UpdateDisplayConfig]);
    assert!(!w.dirty);
    assert!(w.event_queue.is_empty());
}

#[test]
fn the_title_is_compared_after_the_display_applied_the_configuration() {
    let mut w = window(&["a"], 0);
    let old_config = w.update_config(Rc::new(ui_config(true, "New")));
    w.display.window.title = "Alacritty".to_string();
    w.config_applied(&old_config, SAME);
    assert_eq!(w.display.window.title, "New");
}

#[test]
fn shadow_and_option_key_are_reloaded_on_macos() {
    let mut w = window(&["a"], 0);
    w.display.window.macos = true;
    let mut config = ui_config(true, "Alacritty");
    update_config(&mut w, config.clone(), SAME);
    assert_eq!(
        w.effects,
        [
            Effect::UpdateDisplayConfig,
            Effect::SetTerminalOptions { tab: 0 },
            Effect::SetTheme,
            Effect::SetHasShadow { has_shadow: true },
            Effect::SetOptionAsAlt,
            Effect::SetTransparent { transparent: false },
            Effect::SetBlur { blur: false },
            Effect::UpdateHintAlphabet,
        ]
    );
    w.effects.clear();
    config.opaque = false;
    update_config(&mut w, config, SAME);
    assert_eq!(w.effects[3], Effect::SetHasShadow { has_shadow: false });
    assert_eq!(w.effects[5], Effect::SetTransparent { transparent: true });
}

#[test]
fn the_same_configuration_again_changes_nothing() {
    let mut w = window(&["a"], 0);
    let mut config = ui_config(true, "Alacritty");
    config.dynamic_padding = true;
    let changed = ConfigDiff {
        cursor_thickness_changed: true,
        font_changed: true,
        font_size_untouched: true,
        padding_changed: true,
    };
    update_config(&mut w, config.clone(), changed);
    assert!(w.effects.contains(&Effect::SetFont));
    assert_eq!(w.event_queue.len(), 1);
    w.effects.clear();
    w.display.update_pending = false;
    update_config(&mut w, config.clone(), SAME);
    assert!(w.config().dynamic_padding);
    assert!(!w.display.update_pending);
    assert_eq!(
        w.event_queue,
        [QueuedEvent::CursorBlinkingChange, QueuedEvent::CursorBlinkingChange]
    );
    for effect in [
        Effect::SetFont,
        Effect::ScaleFontSize,
        Effect::SetCursorDirty,
        Effect::RequestDisplayUpdate,
    ] {
        assert!(!w.effects.contains(&effect));
    }
}

#[test]
fn frames_and_configurations_keep_the_tabs() {
    let mut w = window(&["a", "b", "c"], 1);
    update_config(&mut w, ui_config(false, "New"), SAME);
    assert!(w.draw());
    w.draw_frame(true);
    let ids: Vec<usize> = w.tabs.iter().map(|t| t.id).collect();
    assert_eq!(ids, [10, 11, 12]);
    assert_eq!(w.active_tab, 1);
}

#[test]
fn overrides_add_up_under_any_configurations() {
    let mut w = window(&["a"], 0);
    let changed = ConfigDiff { font_changed: true, padding_changed: true, ..SAME };
    let old_config = w.add_window_config(Rc::new(ui_config(true, "One")), &vec!["x=1".to_string()]);
    w.config_applied(&old_config, changed);
    let old_config = w.add_window_config(Rc::new(ui_config(false, "Two")), &vec!["y=2".to_string()]);
    assert_eq!(old_config.title, "One");
    w.config_applied(&old_config, SAME);
    assert_eq!(w.window_config, ["x=1", "y=2"]);
    w.reset_window_config(Rc::new(ui_config(true, "Three")));
    assert!(w.window_config.is_empty());
    assert_eq!(w.config().title, "Three");
}
