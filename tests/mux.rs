use myux::keys::Key;
use myux::mux::{Action, App, InputEvent, KeyKind, Mode, MouseKind, SCROLL_STEP};
use myux::terminal::VirtualTerminal;

fn press(key: Key) -> InputEvent {
    InputEvent::Key(key, KeyKind::Press)
}

fn app_with_history(lines: usize) -> App {
    let mut t = VirtualTerminal::new(80, 25);
    for i in 0..lines {
        t.feed_bytes(format!("line {}\r\n", i).as_bytes());
    }
    App::new(t)
}

fn active_offset(app: &App) -> usize {
    app.active_tab().current_scrollback()
}

#[test]
fn normal_typing_forwards_each_key() {
    let mut app = app_with_history(0);
    assert_eq!(app.handle_event(press(Key::Char('d'))), Action::Write(vec![b'd']));
    assert_eq!(app.handle_event(press(Key::Char('i'))), Action::Write(vec![b'i']));
    assert_eq!(app.handle_event(press(Key::Char('r'))), Action::Write(vec![b'r']));
    assert_eq!(app.handle_event(press(Key::Enter)), Action::Write(vec![b'\r']));
    assert_eq!(app.mode(), Mode::Normal);
}

#[test]
fn normal_mode_key_mapping() {
    let mut app = app_with_history(0);
    assert_eq!(app.handle_event(press(Key::Backspace)), Action::Write(vec![0x08]));
    assert_eq!(app.handle_event(press(Key::Tab)), Action::Write(vec![0x09]));
    assert_eq!(app.handle_event(press(Key::Left)), Action::Write(b"\x1b[D".to_vec()));
    assert_eq!(app.handle_event(press(Key::Right)), Action::Write(b"\x1b[C".to_vec()));
    assert_eq!(app.handle_event(press(Key::Up)), Action::Write(b"\x1b[A".to_vec()));
    assert_eq!(app.handle_event(press(Key::Down)), Action::Write(b"\x1b[B".to_vec()));
    assert_eq!(app.handle_event(press(Key::Esc)), Action::Write(vec![0x1b]));
    assert_eq!(
        app.handle_event(press(Key::Char('é'))),
        Action::Write("é".as_bytes().to_vec())
    );
    assert_eq!(app.handle_event(press(Key::F(1))), Action::Redraw);
    assert_eq!(app.handle_event(press(Key::Other)), Action::Redraw);
    assert_eq!(app.mode(), Mode::Normal);
}

#[test]
fn only_presses_count() {
    let mut app = app_with_history(0);
    assert_eq!(app.handle_event(InputEvent::Key(Key::Char('a'), KeyKind::Release)), Action::Ignore);
    assert_eq!(app.handle_event(InputEvent::Key(Key::Char('a'), KeyKind::Repeat)), Action::Ignore);
    assert_eq!(app.handle_event(InputEvent::Key(Key::F(10), KeyKind::Release)), Action::Ignore);
    assert!(!app.is_quitting());
}

#[test]
fn scroll_round_trip_with_wheel_and_cancel() {
    let mut app = app_with_history(40);
    assert_eq!(app.handle_event(InputEvent::Mouse(MouseKind::WheelUp)), Action::Redraw);
    assert_eq!(app.mode(), Mode::Scrollback);
    assert_eq!(active_offset(&app), SCROLL_STEP as usize);
    assert_eq!(app.handle_event(press(Key::Esc)), Action::Redraw);
    assert_eq!(app.mode(), Mode::Normal);
    assert_eq!(active_offset(&app), 0);
}

#[test]
fn page_up_enters_scrollback_without_forwarding() {
    let mut app = app_with_history(40);
    assert_eq!(app.handle_event(press(Key::PageUp)), Action::Redraw);
    assert_eq!(app.mode(), Mode::Scrollback);
    assert_eq!(active_offset(&app), 5);
    assert_eq!(app.handle_event(press(Key::PageUp)), Action::Redraw);
    assert_eq!(active_offset(&app), 10);
}

#[test]
fn scrollback_swallows_other_keys() {
    let mut app = app_with_history(40);
    app.handle_event(press(Key::PageUp));
    assert_eq!(app.handle_event(press(Key::Char('x'))), Action::Ignore);
    assert_eq!(app.handle_event(press(Key::Enter)), Action::Ignore);
    assert_eq!(app.mode(), Mode::Scrollback);
    assert_eq!(active_offset(&app), 5);
}

#[test]
fn scroll_down_to_bottom_exits_scrollback() {
    let mut t = VirtualTerminal::new(80, 25);
    for i in 0..40 {
        t.feed_bytes(format!("line {}\r\n", i).as_bytes());
    }
    t.scroll_up(3);
    let mut app = App::new(t);
    app.handle_event(InputEvent::Mouse(MouseKind::WheelUp));
    assert_eq!(app.mode(), Mode::Scrollback);
    assert_eq!(active_offset(&app), 8);
    assert_eq!(app.handle_event(press(Key::PageDown)), Action::Redraw);
    assert_eq!(active_offset(&app), 3);
    assert_eq!(app.mode(), Mode::Scrollback);
    assert_eq!(app.handle_event(InputEvent::Mouse(MouseKind::WheelDown)), Action::Redraw);
    assert_eq!(active_offset(&app), 0);
    assert_eq!(app.mode(), Mode::Normal);
}

#[test]
fn wheel_down_in_normal_mode_does_nothing() {
    let mut app = app_with_history(40);
    assert_eq!(app.handle_event(InputEvent::Mouse(MouseKind::WheelDown)), Action::Ignore);
    assert_eq!(app.handle_event(InputEvent::Mouse(MouseKind::Other)), Action::Ignore);
    assert_eq!(app.handle_event(InputEvent::Other), Action::Ignore);
    assert_eq!(app.mode(), Mode::Normal);
}

#[test]
fn scrollback_without_history_still_enters_mode() {
    let mut app = app_with_history(0);
    app.handle_event(InputEvent::Mouse(MouseKind::WheelUp));
    assert_eq!(app.mode(), Mode::Scrollback);
    assert_eq!(active_offset(&app), 0);
    app.handle_event(press(Key::PageDown));
    assert_eq!(app.mode(), Mode::Normal);
}

#[test]
fn quit_in_normal_mode_terminates_once() {
    let mut app = app_with_history(0);
    assert_eq!(app.handle_event(press(Key::F(10))), Action::Terminate);
    assert!(app.is_quitting());
    assert_eq!(app.handle_event(press(Key::F(10))), Action::Ignore);
    assert_eq!(app.handle_event(press(Key::Char('x'))), Action::Ignore);
    assert_eq!(app.handle_event(InputEvent::Resize(100, 40)), Action::Ignore);
}

#[test]
fn quit_in_scrollback_mode_terminates_once() {
    let mut app = app_with_history(40);
    app.handle_event(press(Key::PageUp));
    assert_eq!(app.handle_event(press(Key::F(10))), Action::Terminate);
    assert_eq!(app.handle_event(press(Key::Esc)), Action::Ignore);
    assert_eq!(app.handle_event(press(Key::Char('y'))), Action::Ignore);
    assert_eq!(app.mode(), Mode::Scrollback);
}

#[test]
fn resize_follows_terminal_geometry() {
    let mut app = app_with_history(0);
    assert_eq!(app.handle_event(InputEvent::Resize(100, 40)), Action::ResizeSession(100, 39));
    assert_eq!(app.active_tab().size(), (100, 40));
    assert_eq!(app.handle_event(InputEvent::Resize(50, 0)), Action::ResizeSession(50, 1));
    assert_eq!(app.active_tab().render_lines().len(), 1);
    assert_eq!(app.handle_event(InputEvent::Resize(1, 30)), Action::ResizeSession(1, 29));
    assert_eq!(app.active_tab().size(), (1, 30));
    assert_eq!(app.handle_event(InputEvent::Resize(0, 30)), Action::ResizeSession(0, 29));
    assert_eq!(app.active_tab().size(), (0, 30));
    assert_eq!(app.handle_event(InputEvent::Resize(2, 1)), Action::ResizeSession(2, 1));
}

#[test]
fn status_line_names_tab_and_mode() {
    let mut app = app_with_history(40);
    assert_eq!(app.status_line(), "[myux] tab 1/1 | mode: normal | F10: quit");
    app.handle_event(press(Key::PageUp));
    assert_eq!(app.status_line(), "[myux] tab 1/1 | mode: scroll | F10: quit");
    for _ in 0..10 {
        app.add_tab(VirtualTerminal::new(80, 25));
    }
    assert_eq!(app.tab_count(), 11);
    assert_eq!(app.active_index(), 0);
    assert_eq!(app.status_line(), "[myux] tab 1/11 | mode: scroll | F10: quit");
}

#[test]
fn feed_active_reaches_the_active_terminal() {
    let mut app = app_with_history(0);
    app.feed_active(b"dir\r\n");
    assert_eq!(app.active_tab().render_lines()[0], "dir");
    assert!(app.active_tab().is_at_bottom());
}

#[test]
fn feed_while_scrolled_back_keeps_scrollback() {
    let mut app = app_with_history(40);
    app.handle_event(press(Key::PageUp));
    app.feed_active(b"new\r\n");
    assert_eq!(app.mode(), Mode::Scrollback);
    assert_eq!(active_offset(&app), 6);
}
