use std::rc::Rc;

use alacritty_tabs::display::{Display, SizeInfo, UiConfig, Window as PlatformWindow};
use alacritty_tabs::tab::{SearchState, Tab, Terminal};
use alacritty_tabs::window_context::WindowContext;
use alacritty_tabs::display::{TabDragState, WindowOptions};
use alacritty_tabs::effect::Effect;
use alacritty_tabs::tab::{Direction, Pty};
use alacritty_tabs::tab_id::TabIds;

type Window = WindowContext<u32, &'static str>;

const SIZE: SizeInfo = SizeInfo { columns: 80, screen_lines: 24 };

fn terminal(is_focused: bool, mode: u32) -> Terminal {
    Terminal {
        is_focused,
        mode,
        screen_lines: 24,
        columns: 80,
        cursor_line: 0,
        vi_cursor_line: 0,
        display_offset: 0,
    }
}

fn tab(id: usize, title: &str) -> Tab<u32> {
    Tab {
        id,
        terminal: terminal(false, 0),
        handle: id as u32 + 1000,
        title: title.to_string(),
        search_state: SearchState::default(),
        master_fd: id as i32,
        shell_pid: id as u32,
    }
}

fn display() -> Display {
    Display {
        window: PlatformWindow { id: 77, title: "start".to_string(), has_frame: true, macos: false },
        size_info: SIZE,
        update_pending: false,
    }
}

fn ui_config(dynamic_title: bool, title: &str) -> UiConfig {
    UiConfig {
        dynamic_title,
        title: title.to_string(),
        dynamic_padding: false,
        resize_increments: false,
        blur: false,
        opaque: true,
        cursor_blinking: false,
    }
}

/// A window with the tabs 10, 11, 12, ... under the given titles, and nothing asked for.
fn window(titles: &[&str], active_tab: usize) -> Window {
    let config = Rc::new(ui_config(true, "Alacritty"));
    let mut window: Window = WindowContext::additional_with_tab(display(), config, tab(10, titles[0]));
    for (i, title) in titles.iter().enumerate().skip(1) {
        window.tabs.push(tab(10 + i, title));
    }
    window.active_tab = active_tab;
    window.dirty = false;
    window.effects.clear();
    window
}

fn pty() -> Result<Pty<u32>, String> {
    Ok(Pty { handle: 8, terminal: terminal(false, 0), master_fd: 3, shell_pid: 4 })
}

fn options(title: Option<&str>) -> WindowOptions {
    WindowOptions { title: title.map(|t| t.to_string()), working_directory: None }
}

#[test]
fn the_first_window() {
    let config = Rc::new(ui_config(true, "Alacritty"));
    let w: Window = WindowContext::initial(display(), config, options(None), 6, pty()).unwrap();
    assert_eq!(w.tabs.len(), 1);
    assert_eq!(w.tabs[0].id, 6);
    assert_eq!(w.tabs[0].title, "Terminal 7");
    assert_eq!(w.tabs[0].search_state.direction, Direction::Right);
    assert_eq!(w.tabs[0].search_state.history_index, None);
    assert_eq!(w.active_tab, 0);
    assert!(!w.dirty);
    assert!(!w.preserve_title);
    assert!(!w.tab_bar_hidden);
    assert!(!w.occluded);
    assert_eq!(w.drag_state, TabDragState::Idle);
    assert!(w.effects.is_empty());
    assert!(w.window_config.is_empty());
}

#[test]
fn a_blinking_cursor_starts_to_blink() {
    let mut config = ui_config(true, "Alacritty");
    config.cursor_blinking = true;
    let w: Window =
        WindowContext::initial(display(), Rc::new(config), options(Some("mine")), 6, pty()).unwrap();
    assert!(w.preserve_title);
    assert_eq!(w.effects, [Effect::SendCursorBlinkingChange { tab_id: 6 }]);
}

#[test]
fn a_window_needs_a_pty() {
    let config = Rc::new(ui_config(true, "Alacritty"));
    let failed: Result<Pty<u32>, String> = Err("no pty".to_string());
    let w: Result<Window, String> =
        WindowContext::initial(display(), Rc::clone(&config), options(None), 6, Err("no pty".to_string()));
    assert_eq!(w.err(), Some("no pty".to_string()));
    let w: Result<Window, String> =
        WindowContext::additional(display(), config, options(None), vec![], 6, failed);
    assert_eq!(w.err(), Some("no pty".to_string()));
}

#[test]
fn an_additional_window_has_overrides() {
    let config = Rc::new(ui_config(true, "Alacritty"));
    let overrides = vec!["x=1".to_string()];
    let w: Window =
        WindowContext::additional(display(), config, options(None), overrides, 6, pty()).unwrap();
    assert_eq!(w.window_config, ["x=1"]);
    assert_eq!(w.tabs[0].id, 6);
}

#[test]
fn a_torn_off_tab_keeps_what_it_has() {
    let config = Rc::new(ui_config(true, "Alacritty"));
    let w: Window = WindowContext::additional_with_tab(display(), config, tab(15, "vim"));
    assert_eq!(w.tabs[0].id, 15);
    assert_eq!(w.tabs[0].handle, 1015);
    assert!(w.dirty);
    assert_eq!(w.display.window.title, "vim");
    assert_eq!(w.effects, [Effect::SetTitle { title: "vim".to_string() }]);

    let config = Rc::new(ui_config(false, "Alacritty"));
    let w: Window = WindowContext::additional_with_tab(display(), config, tab(15, "vim"));
    assert_eq!(w.display.window.title, "start");
    assert!(w.effects.is_empty());
}

#[test]
fn identifiers_are_unique_across_windows() {
    let mut ids = TabIds::new();
    assert_eq!(ids.next_tab_id(), 0);
    let mut first = window(&["a"], 0);
    let mut second = window(&["b"], 0);
    let r1 = first.tab_request(&mut ids);
    let r2 = second.tab_request(&mut ids);
    assert_eq!((r1.tab_id, r2.tab_id), (1, 2));
    assert_eq!(r1.window_id, 77);
    assert_eq!(r1.master_fd, 10);
    assert_eq!(r1.shell_pid, 10);
    first.create_tab(r1.tab_id, pty());
    second.create_tab(r2.tab_id, pty());
    assert_ne!(first.active_tab_id(), second.active_tab_id());
}

#[test]
fn identifiers_start_over() {
    let mut ids = TabIds { next: usize::MAX };
    assert_eq!(ids.next_tab_id(), usize::MAX);
    assert_eq!(ids.next_tab_id(), 0);
    assert_eq!(ids.next_tab_id(), 1);
}

#[test]
fn a_shell_starts_where_the_last_one_is() {
    let found: Result<Vec<u8>, ()> = Ok(b"/home".to_vec());
    let lost: Result<Vec<u8>, ()> = Err(());
    assert_eq!(WindowOptions::starting_in(found).working_directory, Some(b"/home".to_vec()));
    assert_eq!(WindowOptions::starting_in(lost), options(None));
}
