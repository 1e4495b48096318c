use std::rc::Rc;

use alacritty_tabs::display::{Display, SizeInfo, UiConfig, Window as PlatformWindow};
use alacritty_tabs::tab::{SearchState, Tab, Terminal};
use alacritty_tabs::window_context::WindowContext;
use alacritty_terminal::term::TermMode;
use alacritty_tabs::effect::Effect;
use alacritty_tabs::tab::Pty;
use alacritty_tabs::tabs::FOCUS_IN_OUT;

type Window = WindowContext<u32, &'static str>;

const SIZE: SizeInfo = SizeInfo { columns: 80, screen_lines: 24 };

fn terminal(is_focused: bool, mode: u32) -> Terminal {
    Terminal {
        is_focused,
        mode,
        screen_lines: 24,
        columns: 80,
        cursor_line: 0,
        vi_cursor_line: 0,
        display_offset: 0,
    }
}

fn tab(id: usize, title: &str) -> Tab<u32> {
    Tab {
        id,
        terminal: terminal(false, 0),
        handle: id as u32 + 1000,
        title: title.to_string(),
        search_state: SearchState::default(),
        master_fd: id as i32,
        shell_pid: id as u32,
    }
}

fn display() -> Display {
    Display {
        window: PlatformWindow { id: 77, title: "start".to_string(), has_frame: true, macos: false },
        size_info: SIZE,
        update_pending: false,
    }
}

fn ui_config(dynamic_title: bool, title: &str) -> UiConfig {
    UiConfig {
        dynamic_title,
        title: title.to_string(),
        dynamic_padding: false,
        resize_increments: false,
        blur: false,
        opaque: true,
        cursor_blinking: false,
    }
}

/// A window with the tabs 10, 11, 12, ... under the given titles, and nothing asked for.
fn window(titles: &[&str], active_tab: usize) -> Window {
    let config = Rc::new(ui_config(true, "Alacritty"));
    let mut window: Window = WindowContext::additional_with_tab(display(), config, tab(10, titles[0]));
    for (i, title) in titles.iter().enumerate().skip(1) {
        window.tabs.push(tab(10 + i, title));
    }
    window.active_tab = active_tab;
    window.dirty = false;
    window.effects.clear();
    window
}

fn ids(window: &Window) -> Vec<usize> {
    window.tabs.iter().map(|t| t.id).collect()
}

fn focused(window: &Window) -> Vec<usize> {
    window.tabs.iter().filter(|t| t.terminal.is_focused).map(|t| t.id).collect()
}

fn set_title(title: &str) -> Effect {
    Effect::SetTitle { title: title.to_string() }
}

#[test]
fn focus_bit_is_the_one_of_the_terminal() {
    assert_eq!(FOCUS_IN_OUT, TermMode::FOCUS_IN_OUT.bits());
}

#[test]
fn active_tab_is_found() {
    let mut w = window(&["a", "b", "c"], 1);
    assert_eq!(w.active_tab().title, "b");
    assert_eq!(w.active_tab_id(), 11);
    w.active_tab_mut().title = "z".to_string();
    assert_eq!(w.tabs[1].title, "z");
    assert_eq!(w.id(), 77);
}

#[test]
fn tabs_are_found_by_id() {
    let w = window(&["a", "b", "c"], 0);
    assert_eq!(w.tab_index_by_id(10), Some(0));
    assert_eq!(w.tab_index_by_id(12), Some(2));
    assert_eq!(w.tab_index_by_id(13), None);
}

#[test]
fn first_of_equal_ids_is_found() {
    let mut w = window(&["a", "b", "c"], 0);
    w.tabs[2].id = 11;
    assert_eq!(w.tab_index_by_id(11), Some(1));
}

#[test]
fn closing_before_active_keeps_the_active_tab() {
    let mut w = window(&["a", "b", "c"], 2);
    w.close_tab_by_id(10);
    assert_eq!(ids(&w), [11, 12]);
    assert_eq!(w.active_tab, 1);
    assert_eq!(w.active_tab_id(), 12);
    assert!(w.dirty);
    assert!(w.display.update_pending);
    assert_eq!(
        w.effects,
        [Effect::MarkFullyDamaged, Effect::RequestDisplayUpdate, set_title("c")]
    );
}

#[test]
fn closing_behind_active_keeps_the_active_tab() {
    let mut w = window(&["a", "b", "c"], 0);
    w.close_tab_by_id(12);
    assert_eq!(ids(&w), [10, 11]);
    assert_eq!(w.active_tab_id(), 10);
}

#[test]
fn closing_the_active_tab_selects_a_neighbour() {
    let mut w = window(&["a", "b", "c"], 1);
    w.close_tab_by_id(11);
    assert_eq!(w.active_tab_id(), 12);
    w.close_tab_by_id(12);
    assert_eq!(w.active_tab_id(), 10);
    assert_eq!(w.display.window.title, "a");
}

#[test]
fn closing_the_only_tab_asks_for_nothing() {
    let mut w = window(&["a"], 0);
    w.close_tab_by_id(10);
    assert!(w.tabs.is_empty());
    assert_eq!(w.active_tab, 0);
    assert!(!w.dirty);
    assert!(w.effects.is_empty());
}

#[test]
fn closing_an_unknown_tab_does_nothing() {
    let mut w = window(&["a", "b"], 1);
    w.close_tab_by_id(99);
    assert_eq!(ids(&w), [10, 11]);
    assert!(!w.dirty);
    assert!(w.effects.is_empty());
}

#[test]
fn closing_brings_a_stray_active_index_back() {
    let mut w = window(&["a", "b", "c"], 9);
    w.close_tab_by_id(10);
    assert_eq!(w.active_tab, 1);
}

#[test]
fn selecting_moves_the_focus_and_reports_it() {
    let mut w = window(&["a", "b"], 0);
    w.tabs[0].terminal = terminal(true, FOCUS_IN_OUT | 1);
    w.tabs[1].terminal = terminal(false, FOCUS_IN_OUT);
    w.select_tab(1);
    assert_eq!(w.active_tab, 1);
    assert_eq!(focused(&w), [11]);
    assert!(w.dirty);
    assert_eq!(
        w.effects,
        [
            Effect::SetTerminalFocus { tab: 0, focused: false },
            Effect::Notify { tab: 0, bytes: b"\x1b[O".to_vec() },
            Effect::SetTerminalFocus { tab: 1, focused: true },
            Effect::Notify { tab: 1, bytes: b"\x1b[I".to_vec() },
            Effect::MarkFullyDamaged,
            Effect::RequestDisplayUpdate,
            set_title("b"),
        ]
    );
}

#[test]
fn selecting_reports_only_to_who_asked() {
    let mut w = window(&["a", "b"], 0);
    w.tabs[0].terminal = terminal(true, 0);
    w.tabs[1].terminal = terminal(false, FOCUS_IN_OUT);
    w.select_tab(1);
    assert!(!w.effects.contains(&Effect::Notify { tab: 0, bytes: b"\x1b[O".to_vec() }));
    assert!(w.effects.contains(&Effect::Notify { tab: 1, bytes: b"\x1b[I".to_vec() }));
}

#[test]
fn selecting_without_focus_reports_nothing() {
    let mut w = window(&["a", "b"], 0);
    w.tabs[0].terminal = terminal(false, FOCUS_IN_OUT);
    w.tabs[1].terminal = terminal(true, FOCUS_IN_OUT);
    w.select_tab(1);
    assert!(focused(&w).is_empty());
    assert_eq!(w.effects.len(), 5);
}

#[test]
fn selecting_the_active_tab_reports_both_ways() {
    let mut w = window(&["a", "b"], 1);
    w.tabs[1].terminal = terminal(true, FOCUS_IN_OUT);
    w.select_tab(1);
    assert_eq!(focused(&w), [11]);
    assert_eq!(w.effects[1], Effect::Notify { tab: 1, bytes: b"\x1b[O".to_vec() });
    assert_eq!(w.effects[3], Effect::Notify { tab: 1, bytes: b"\x1b[I".to_vec() });
}

#[test]
fn selecting_out_of_range_does_nothing() {
    let mut w = window(&["a", "b"], 1);
    w.select_tab(2);
    assert_eq!(w.active_tab, 1);
    assert!(!w.dirty);
    assert!(w.effects.is_empty());
}

#[test]
fn reordering_keeps_the_active_tab() {
    for active in 0..4 {
        for from in 0..4 {
            for to in 0..4 {
                let mut w = window(&["a", "b", "c", "d"], active);
                w.reorder_tab(from, to);
                assert_eq!(w.active_tab_id(), 10 + active);
                assert_eq!(w.tabs[to].id, 10 + from);
                assert_eq!(w.tabs[to].handle, 1010 + from as u32);
                assert_eq!(w.dirty, from != to);
                w.reorder_tab(to, from);
                assert_eq!(ids(&w), [10, 11, 12, 13]);
                assert_eq!(w.active_tab, active);
            }
        }
    }
}

#[test]
fn reordering_shifts_the_tabs_between() {
    let mut w = window(&["a", "b", "c", "d"], 0);
    w.reorder_tab(0, 2);
    assert_eq!(ids(&w), [11, 12, 10, 13]);
    assert_eq!(w.effects, [Effect::RequestDisplayUpdate]);
    assert!(w.display.update_pending);
}

#[test]
fn reordering_out_of_range_does_nothing() {
    let mut w = window(&["a", "b"], 0);
    w.reorder_tab(0, 2);
    w.reorder_tab(2, 0);
    w.reorder_tab(1, 1);
    assert_eq!(ids(&w), [10, 11]);
    assert!(!w.dirty);
    assert!(w.effects.is_empty());
}

#[test]
fn a_created_tab_becomes_active() {
    let mut w = window(&["a", "b"], 0);
    w.tabs[0].terminal.is_focused = true;
    let pty: Result<Pty<u32>, &str> = Ok(Pty {
        handle: 5,
        terminal: terminal(false, 0),
        master_fd: 3,
        shell_pid: 4,
    });
    assert_eq!(w.create_tab(41, pty), 41);
    assert_eq!(ids(&w), [10, 11, 41]);
    assert_eq!(w.active_tab, 2);
    assert_eq!(w.tabs[2].title, "Terminal 42");
    assert_eq!(w.tabs[2].handle, 5);
    assert_eq!(w.tabs[2].master_fd, 3);
    assert_eq!(w.tabs[2].shell_pid, 4);
    assert_eq!(w.tabs[2].search_state, SearchState::default());
    assert_eq!(focused(&w), [41]);
    assert_eq!(w.display.window.title, "Terminal 42");

    // Closing it leaves the other tabs, the last of them active.
    w.close_tab_by_id(41);
    assert_eq!(ids(&w), [10, 11]);
    assert_eq!(w.active_tab, 1);
    assert!(focused(&w).is_empty());
}

#[test]
fn without_a_pty_no_tab_is_created() {
    let mut w = window(&["a", "b"], 0);
    let pty: Result<Pty<u32>, &str> = Err("no pty");
    assert_eq!(w.create_tab(41, pty), 41);
    assert_eq!(ids(&w), [10, 11]);
    assert!(!w.dirty);
    assert!(w.effects.is_empty());
}

#[test]
fn a_window_without_tabs_takes_a_new_one() {
    let mut w = window(&["a"], 0);
    w.close_tab_by_id(10);
    assert!(w.tabs.is_empty());
    w.effects.clear();

    let failed: Result<Pty<u32>, &str> = Err("no pty");
    assert_eq!(w.create_tab(40, failed), 40);
    assert!(w.tabs.is_empty());
    assert!(w.effects.is_empty());

    let pty: Result<Pty<u32>, &str> = Ok(Pty {
        handle: 5,
        terminal: terminal(true, 0),
        master_fd: 3,
        shell_pid: 4,
    });
    assert_eq!(w.create_tab(41, pty), 41);
    assert_eq!(ids(&w), [41]);
    assert_eq!(w.active_tab, 0);
    assert_eq!(focused(&w), [41]);
    assert_eq!(w.display.window.title, "Terminal 42");
    w.close_tab_by_id(41);
    assert!(w.tabs.is_empty());
}

#[test]
fn a_tab_needs_a_pty() {
    let pty: Result<Pty<u32>, &str> = Err("no pty");
    assert_eq!(Tab::new(1, pty).err(), Some("no pty"));
}
