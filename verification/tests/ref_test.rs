use std::rc::Rc;

use alacritty_tabs::display::{Display, SizeInfo, UiConfig, Window as PlatformWindow};
use alacritty_tabs::tab::{SearchState, Tab, Terminal};
use alacritty_tabs::window_context::WindowContext;
use alacritty_terminal::term::test::TermSize;

type Window = WindowContext<u32, &'static str>;

const SIZE: SizeInfo = SizeInfo { columns: 80, screen_lines: 24 };

fn terminal(is_focused: bool, mode: u32) -> Terminal {
    Terminal {
        is_focused,
        mode,
        screen_lines: 24,
        columns: 80,
        cursor_line: 0,
        vi_cursor_line: 0,
        display_offset: 0,
    }
}

fn tab(id: usize, title: &str) -> Tab<u32> {
    Tab {
        id,
        terminal: terminal(false, 0),
        handle: id as u32 + 1000,
        title: title.to_string(),
        search_state: SearchState::default(),
        master_fd: id as i32,
        shell_pid: id as u32,
    }
}

fn display() -> Display {
    Display {
        window: PlatformWindow { id: 77, title: "start".to_string(), has_frame: true, macos: false },
        size_info: SIZE,
        update_pending: false,
    }
}

fn ui_config(dynamic_title: bool, title: &str) -> UiConfig {
    UiConfig {
        dynamic_title,
        title: title.to_string(),
        dynamic_padding: false,
        resize_increments: false,
        blur: false,
        opaque: true,
        cursor_blinking: false,
    }
}

/// A window with the tabs 10, 11, 12, ... under the given titles, and nothing asked for.
fn window(titles: &[&str], active_tab: usize) -> Window {
    let config = Rc::new(ui_config(true, "Alacritty"));
    let mut window: Window = WindowContext::additional_with_tab(display(), config, tab(10, titles[0]));
    for (i, title) in titles.iter().enumerate().skip(1) {
        window.tabs.push(tab(10 + i, title));
    }
    window.active_tab = active_tab;
    window.dirty = false;
    window.effects.clear();
    window
}

#[test]
fn a_recording_has_three_files() {
    let mut w = window(&["a"], 0);
    w.display.size_info = SizeInfo { columns: 132, screen_lines: 43 };
    let files = w.write_ref_test_results("{\"raw\":[]}".to_string(), 1000);
    assert_eq!(files.len(), 3);
    assert_eq!(files[0].path, "./grid.json");
    assert_eq!(files[0].contents, "{\"raw\":[]}");
    assert_eq!(files[1].path, "./size.json");
    assert_eq!(files[1].contents, "{\"columns\":132,\"screen_lines\":43}");
    assert_eq!(files[2].path, "./config.json");
    assert_eq!(files[2].contents, "{\"history_size\":1000}");
}

#[test]
fn a_recorded_size_can_be_read_back() {
    let w = window(&["a"], 0);
    let files = w.write_ref_test_results(String::new(), 0);
    let size: TermSize = serde_json::from_str(&files[1].contents).unwrap();
    assert_eq!((size.columns, size.screen_lines), (80, 24));
}
