use std::rc::Rc;

use alacritty_tabs::display::{Display, SizeInfo, UiConfig, Window as PlatformWindow};
use alacritty_tabs::tab::{SearchState, Tab, Terminal};
use alacritty_tabs::window_context::WindowContext;
use alacritty_tabs::effect::Effect;

type Window = WindowContext<u32, &'static str>;

const SIZE: SizeInfo = SizeInfo { columns: 80, screen_lines: 24 };

fn terminal(is_focused: bool, mode: u32) -> Terminal {
    Terminal {
        is_focused,
        mode,
        screen_lines: 24,
        columns: 80,
        cursor_line: 0,
        vi_cursor_line: 0,
        display_offset: 0,
    }
}

fn tab(id: usize, title: &str) -> Tab<u32> {
    Tab {
        id,
        terminal: terminal(false, 0),
        handle: id as u32 + 1000,
        title: title.to_string(),
        search_state: SearchState::default(),
        master_fd: id as i32,
        shell_pid: id as u32,
    }
}

fn display() -> Display {
    Display {
        window: PlatformWindow { id: 77, title: "start".to_string(), has_frame: true, macos: false },
        size_info: SIZE,
        update_pending: false,
    }
}

fn ui_config(dynamic_title: bool, title: &str) -> UiConfig {
    UiConfig {
        dynamic_title,
        title: title.to_string(),
        dynamic_padding: false,
        resize_increments: false,
        blur: false,
        opaque: true,
        cursor_blinking: false,
    }
}

/// A window with the tabs 10, 11, 12, ... under the given titles, and nothing asked for.
fn window(titles: &[&str], active_tab: usize) -> Window {
    let config = Rc::new(ui_config(true, "Alacritty"));
    let mut window: Window = WindowContext::additional_with_tab(display(), config, tab(10, titles[0]));
    for (i, title) in titles.iter().enumerate().skip(1) {
        window.tabs.push(tab(10 + i, title));
    }
    window.active_tab = active_tab;
    window.dirty = false;
    window.effects.clear();
    window
}

#[test]
fn title_of_the_active_tab_reaches_the_window() {
    let mut w = window(&["a", "b"], 1);
    w.update_tab_title(11, "vim".to_string());
    assert_eq!(w.tabs[1].title, "vim");
    assert_eq!(w.tabs[0].title, "a");
    assert_eq!(w.display.window.title, "vim");
    assert_eq!(w.effects, [Effect::SetTitle { title: "vim".to_string() }]);
}

#[test]
fn title_of_another_tab_stays_with_it() {
    let mut w = window(&["a", "b"], 1);
    w.update_tab_title(10, "vim".to_string());
    assert_eq!(w.tabs[0].title, "vim");
    assert_eq!(w.display.window.title, "a");
    assert!(w.effects.is_empty());
}

#[test]
fn title_of_an_unknown_tab_is_ignored() {
    let mut w = window(&["a", "b"], 1);
    w.update_tab_title(99, "vim".to_string());
    w.reset_tab_title(99);
    assert_eq!(w.tabs[0].title, "a");
    assert_eq!(w.tabs[1].title, "b");
    assert!(w.effects.is_empty());
}

#[test]
fn reset_numbers_a_tab_by_its_place() {
    let mut w = window(&["a", "b", "c"], 1);
    w.reset_tab_title(12);
    assert_eq!(w.tabs[2].title, "Terminal 3");
    assert!(w.effects.is_empty());
    w.reset_tab_title(11);
    assert_eq!(w.tabs[1].title, "Terminal 2");
    assert_eq!(w.display.window.title, "Alacritty");
    assert_eq!(w.effects, [Effect::SetTitle { title: "Alacritty".to_string() }]);
}

#[test]
fn reset_works_on_a_window_without_tabs() {
    let mut w = window(&["a"], 0);
    w.close_tab_by_id(10);
    w.reset_tab_title(10);
    assert!(w.effects.is_empty());
}

#[test]
fn a_preserved_title_is_never_touched() {
    let mut w = window(&["a", "b", "c"], 0);
    w.preserve_title = true;
    let before = w.display.window.title.clone();
    w.update_tab_title(10, "vim".to_string());
    w.reset_tab_title(10);
    w.select_tab(2);
    w.close_tab_by_id(12);
    assert_eq!(w.display.window.title, before);
    assert!(!w.effects.iter().any(|e| matches!(e, Effect::SetTitle { .. })));
}

#[test]
fn a_static_title_ignores_the_tabs() {
    let mut w = window(&["a", "b", "c"], 0);
    w.config = Rc::new(ui_config(false, "Alacritty"));
    w.update_tab_title(10, "vim".to_string());
    w.reset_tab_title(10);
    w.select_tab(2);
    w.close_tab_by_id(12);
    assert!(!w.effects.iter().any(|e| matches!(e, Effect::SetTitle { .. })));
}

#[test]
fn the_title_of_an_only_tab() {
    let mut w = window(&["a"], 0);
    w.update_tab_title(10, "vim".to_string());
    assert_eq!(w.tabs[0].title, "vim");
    assert_eq!(w.display.window.title, "vim");
    w.reset_tab_title(10);
    assert_eq!(w.tabs[0].title, "Terminal 1");
    assert_eq!(w.display.window.title, "Alacritty");
}
