use std::rc::Rc;

use alacritty_tabs::display::{Display, SizeInfo, UiConfig, Window as PlatformWindow};
use alacritty_tabs::tab::{SearchState, Tab, Terminal};
use alacritty_tabs::window_context::WindowContext;
use alacritty_terminal::term::TermMode;
use alacritty_tabs::display::TabDragState;
use alacritty_tabs::effect::{Effect, Frame};
use alacritty_tabs::events::{
    scroll_after_update, viewport_before_update, LoopEvent, Step, Viewport, VI,
};
use alacritty_tabs::tab::Direction;
use alacritty_tabs::window_context::QueuedEvent;

type Window = WindowContext<u32, &'static str>;

const SIZE: SizeInfo = SizeInfo { columns: 80, screen_lines: 24 };

fn terminal(is_focused: bool, mode: u32) -> Terminal {
    Terminal {
        is_focused,
        mode,
        screen_lines: 24,
        columns: 80,
        cursor_line: 0,
        vi_cursor_line: 0,
        display_offset: 0,
    }
}

fn tab(id: usize, title: &str) -> Tab<u32> {
    Tab {
        id,
        terminal: terminal(false, 0),
        handle: id as u32 + 1000,
        title: title.to_string(),
        search_state: SearchState::default(),
        master_fd: id as i32,
        shell_pid: id as u32,
    }
}

fn display() -> Display {
    Display {
        window: PlatformWindow { id: 77, title: "start".to_string(), has_frame: true, macos: false },
        size_info: SIZE,
        update_pending: false,
    }
}

fn ui_config(dynamic_title: bool, title: &str) -> UiConfig {
    UiConfig {
        dynamic_title,
        title: title.to_string(),
        dynamic_padding: false,
        resize_increments: false,
        blur: false,
        opaque: true,
        cursor_blinking: false,
    }
}

/// A window with the tabs 10, 11, 12, ... under the given titles, and nothing asked for.
fn window(titles: &[&str], active_tab: usize) -> Window {
    let config = Rc::new(ui_config(true, "Alacritty"));
    let mut window: Window = WindowContext::additional_with_tab(display(), config, tab(10, titles[0]));
    for (i, title) in titles.iter().enumerate().skip(1) {
        window.tabs.push(tab(10 + i, title));
    }
    window.active_tab = active_tab;
    window.dirty = false;
    window.effects.clear();
    window
}

fn search(direction: Direction, history_index: Option<usize>) -> SearchState {
    SearchState { direction, history_index }
}

#[test]
fn vi_bit_is_the_one_of_the_terminal() {
    assert_eq!(VI, TermMode::VI.bits());
}

#[test]
fn events_are_staged_in_order() {
    let mut w = window(&["a", "b"], 1);
    w.tabs[1].search_state = search(Direction::Left, Some(0));
    assert!(w.handle_event(LoopEvent::Other("key")).is_none());
    assert!(w.handle_event(LoopEvent::Other("mouse")).is_none());
    assert_eq!(w.event_queue.len(), 2);
    let batch = w.handle_event(LoopEvent::AboutToWait).unwrap();
    assert_eq!(batch.events, [QueuedEvent::Received("key"), QueuedEvent::Received("mouse")]);
    assert!(!batch.redraw_requested);
    assert_eq!(batch.active_tab, 1);
    assert_eq!(batch.active_tab_id, 11);
    assert_eq!(batch.tabs_len, 2);
    assert_eq!(batch.master_fd, 11);
    assert_eq!(batch.shell_pid, 11);
    assert!(batch.old_is_searching);
    assert_eq!(batch.tab_titles, ["a", "b"]);
    assert!(w.event_queue.is_empty());
    assert!(w.effects.is_empty());
    assert!(w.handle_event(LoopEvent::AboutToWait).is_none());
}

#[test]
fn without_events_there_is_no_batch() {
    let mut w = window(&["a"], 0);
    assert!(w.handle_event(LoopEvent::AboutToWait).is_none());
    assert!(w.handle_event(LoopEvent::RedrawRequested).is_none());
    w.close_tab_by_id(10);
    assert!(w.handle_event(LoopEvent::RedrawRequested).is_none());
}

#[test]
fn a_batch_meets_a_terminal_of_the_right_size() {
    let mut w = window(&["a"], 0);
    w.tabs[0].terminal.columns = 100;
    w.handle_event(LoopEvent::Other("key"));
    let batch = w.handle_event(LoopEvent::RedrawRequested).unwrap();
    assert!(batch.redraw_requested);
    assert_eq!(w.tabs[0].terminal.columns, 80);
    assert_eq!(
        w.effects,
        [
            Effect::NotifyResize { tab: 0, size: SIZE },
            Effect::ResizeTerminal { tab: 0, size: SIZE },
        ]
    );
}

#[test]
fn a_batch_without_changes_ends_at_once() {
    let mut w = window(&["a"], 0);
    w.handle_event(LoopEvent::Other("key"));
    let batch = w.handle_event(LoopEvent::AboutToWait).unwrap();
    assert_eq!(w.events_processed(&batch), Step::Done);
    assert!(w.effects.is_empty());
}

#[test]
fn a_dirty_window_gets_a_frame() {
    let mut w = window(&["a"], 0);
    w.handle_event(LoopEvent::Other("key"));
    let batch = w.handle_event(LoopEvent::AboutToWait).unwrap();
    w.dirty = true;
    assert_eq!(w.events_processed(&batch), Step::UpdateHints);
    assert_eq!(w.hints_updated(&batch, false), Step::Done);
    assert_eq!(w.effects, [Effect::RequestRedraw]);
}

#[test]
fn changed_hints_make_a_window_dirty() {
    let mut w = window(&["a"], 0);
    w.hint_highlight_dirty = true;
    w.handle_event(LoopEvent::Other("mouse"));
    let batch = w.handle_event(LoopEvent::AboutToWait).unwrap();
    assert_eq!(w.events_processed(&batch), Step::UpdateHints);
    assert_eq!(w.hints_updated(&batch, true), Step::Done);
    assert!(w.dirty);
    assert!(!w.hint_highlight_dirty);
    assert_eq!(w.effects, [Effect::RequestRedraw]);
}

#[test]
fn no_frame_is_asked_for_in_vain() {
    // The platform asked itself.
    let mut w = window(&["a"], 0);
    w.dirty = true;
    w.handle_event(LoopEvent::Other("key"));
    let batch = w.handle_event(LoopEvent::RedrawRequested).unwrap();
    w.events_processed(&batch);
    w.hints_updated(&batch, true);
    assert!(w.effects.is_empty());

    // Nothing of the window can be seen.
    let mut w = window(&["a"], 0);
    w.dirty = true;
    w.occluded = true;
    w.handle_event(LoopEvent::Other("key"));
    let batch = w.handle_event(LoopEvent::AboutToWait).unwrap();
    w.events_processed(&batch);
    w.hints_updated(&batch, true);
    assert!(w.effects.is_empty());

    // The platform is not ready.
    let mut w = window(&["a"], 0);
    w.dirty = true;
    w.display.window.has_frame = false;
    w.handle_event(LoopEvent::Other("key"));
    let batch = w.handle_event(LoopEvent::AboutToWait).unwrap();
    w.events_processed(&batch);
    w.hints_updated(&batch, true);
    assert!(w.effects.is_empty());
}

#[test]
fn a_search_that_begins_scrolls_the_cursor_into_view() {
    let mut w = window(&["a", "b"], 0);
    w.tabs[0].terminal.cursor_line = 23;
    w.handle_event(LoopEvent::Other("search"));
    let batch = w.handle_event(LoopEvent::AboutToWait).unwrap();
    w.display.update_pending = true;
    w.tab_bar_hidden = true;
    let before = Viewport { cursor_at_bottom: true, origin_at_bottom: false };
    assert_eq!(
        w.events_processed(&batch),
        Step::UpdateDisplay { before, tab_count: 2, tab_bar_hidden: true }
    );
    w.display.update_pending = false;
    w.tabs[0].search_state.history_index = Some(0);
    assert_eq!(w.display_updated(&batch, before), Step::UpdateHints);
    assert!(w.dirty);
    assert_eq!(w.effects, [Effect::ScrollDisplay { tab: 0, delta: 1 }]);
    assert_eq!(w.hints_updated(&batch, false), Step::Done);
    assert_eq!(w.effects.last(), Some(&Effect::RequestRedraw));
}

#[test]
fn positions_before_an_update() {
    let mut t = terminal(false, 0);
    let right = search(Direction::Right, None);
    let left = search(Direction::Left, None);
    t.cursor_line = 22;
    assert_eq!(
        viewport_before_update(&t, &right),
        Viewport { cursor_at_bottom: false, origin_at_bottom: false }
    );
    t.cursor_line = 23;
    assert_eq!(
        viewport_before_update(&t, &left),
        Viewport { cursor_at_bottom: true, origin_at_bottom: true }
    );

    // In Vi mode the origin is the Vi cursor, whatever the direction.
    t.mode = VI | 1;
    t.vi_cursor_line = 22;
    assert!(!viewport_before_update(&t, &left).origin_at_bottom);
    t.vi_cursor_line = 23;
    assert!(viewport_before_update(&t, &right).origin_at_bottom);
    t.vi_cursor_line = -1;
    assert!(!viewport_before_update(&t, &right).origin_at_bottom);
}

#[test]
fn scrolling_after_an_update() {
    let mut t = terminal(false, 0);
    let active = search(Direction::Right, Some(0));
    let idle = search(Direction::Right, None);
    let cursor = Viewport { cursor_at_bottom: true, origin_at_bottom: false };
    let origin = Viewport { cursor_at_bottom: false, origin_at_bottom: true };
    let both = Viewport { cursor_at_bottom: true, origin_at_bottom: true };
    let neither = Viewport { cursor_at_bottom: false, origin_at_bottom: false };
    assert_eq!(scroll_after_update(false, &active, &t, cursor), Some(1));
    assert_eq!(scroll_after_update(false, &active, &t, both), None);
    assert_eq!(scroll_after_update(false, &active, &t, origin), None);
    assert_eq!(scroll_after_update(false, &active, &t, neither), None);
    assert_eq!(scroll_after_update(true, &active, &t, cursor), None);
    assert_eq!(scroll_after_update(false, &idle, &t, cursor), None);
    t.display_offset = 5;
    assert_eq!(scroll_after_update(false, &active, &t, origin), Some(-1));
    assert_eq!(scroll_after_update(false, &active, &t, both), Some(-1));
    assert_eq!(scroll_after_update(false, &active, &t, cursor), None);
    assert_eq!(scroll_after_update(true, &active, &t, origin), None);
}

#[test]
fn drawing_shows_the_tabs() {
    let mut w = window(&["a", "b"], 1);
    w.dirty = true;
    w.drag_state = TabDragState::Dragging { tab_index: 1, current_x: 300 };
    assert!(w.draw());
    w.draw_frame(true);
    assert!(!w.dirty);
    let frame = Frame {
        tab_titles: vec!["a".to_string(), "b".to_string()],
        active_tab: 1,
        tab_bar_hidden: false,
        drag: Some((1, 300)),
    };
    assert_eq!(
        w.effects,
        [
            Effect::ClearRedrawRequest,
            Effect::ProcessRendererUpdate,
            Effect::DrawFrame { frame },
        ]
    );
}

#[test]
fn drawing_resizes_a_stale_terminal() {
    let mut w = window(&["a", "b"], 1);
    w.tabs[1].terminal.screen_lines = 50;
    assert!(w.draw());
    w.draw_frame(true);
    assert_eq!(w.tabs[1].terminal.screen_lines, 24);
    assert_eq!(w.effects[2], Effect::NotifyResize { tab: 1, size: SIZE });
    assert_eq!(w.effects[3], Effect::ResizeTerminal { tab: 1, size: SIZE });
    assert_eq!(w.effects[4], Effect::ResizeDamage { size: SIZE });
    assert_eq!(w.effects.len(), 6);
    w.effects.clear();
    assert!(w.draw());
    w.draw_frame(true);
    assert_eq!(w.effects.len(), 3);
}

#[test]
fn a_bell_that_shows_needs_another_frame() {
    let mut w = window(&["a"], 0);
    assert!(w.draw());
    w.draw_frame(false);
    assert!(!w.dirty);
    assert_eq!(w.effects[2], Effect::RequestRedraw);
    let mut w = window(&["a"], 0);
    w.display.window.has_frame = false;
    assert!(w.draw());
    w.draw_frame(false);
    assert!(w.dirty);
    assert!(!w.effects.contains(&Effect::RequestRedraw));
}

#[test]
fn an_occluded_window_is_not_drawn() {
    let mut w = window(&["a"], 0);
    w.dirty = true;
    w.occluded = true;
    assert!(!w.draw());
    assert!(w.dirty);
    assert_eq!(w.effects, [Effect::ClearRedrawRequest]);
}

#[test]
fn drawing_fits_the_terminal_to_the_display_that_was_updated() {
    let mut w = window(&["a"], 0);
    assert!(w.draw());
    assert_eq!(w.effects, [Effect::ClearRedrawRequest, Effect::ProcessRendererUpdate]);
    let size = SizeInfo { columns: 100, screen_lines: 30 };
    w.display.size_info = size;
    w.effects.clear();
    w.draw_frame(true);
    assert_eq!(w.effects[0], Effect::NotifyResize { tab: 0, size });
    assert_eq!(w.effects[1], Effect::ResizeTerminal { tab: 0, size });
    assert_eq!(w.effects[2], Effect::ResizeDamage { size });
    assert_eq!(w.tabs[0].terminal.columns, 100);
    assert_eq!(w.tabs[0].terminal.screen_lines, 30);
}
