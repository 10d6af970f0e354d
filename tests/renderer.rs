use myux::renderer::Renderer;
use myux::terminal::VirtualTerminal;

#[test]
fn layout_pads_every_row_to_width() {
    let r = Renderer::new();
    let lines = vec!["ab".to_string(), "c".to_string()];
    let frame = r.layout(&lines, 4, 3, "st");
    assert_eq!(frame, vec!["ab  ", "c   ", "st  "]);
}

#[test]
fn layout_truncates_long_rows() {
    let r = Renderer::new();
    let lines = vec!["abcdefgh".to_string()];
    let frame = r.layout(&lines, 3, 2, "status line");
    assert_eq!(frame, vec!["abc", "sta"]);
}

#[test]
fn layout_aligns_few_lines_to_bottom() {
    let r = Renderer::new();
    let lines = vec!["x".to_string()];
    let frame = r.layout(&lines, 2, 4, "s");
    assert_eq!(frame, vec!["  ", "  ", "x ", "s "]);
}

#[test]
fn layout_shows_last_lines_when_too_many() {
    let r = Renderer::new();
    let lines = vec!["1".to_string(), "2".to_string(), "3".to_string()];
    let frame = r.layout(&lines, 1, 3, "s");
    assert_eq!(frame, vec!["2", "3", "s"]);
}

#[test]
fn layout_on_one_row_console_is_status_only() {
    let r = Renderer::new();
    let lines = vec!["hidden".to_string()];
    assert_eq!(r.layout(&lines, 5, 1, "ok"), vec!["ok   "]);
    assert_eq!(r.layout(&lines, 5, 0, "ok"), vec!["ok   "]);
}

#[test]
fn layout_counts_characters_not_bytes() {
    let r = Renderer::new();
    let lines = vec!["héé".to_string()];
    assert_eq!(r.layout(&lines, 4, 2, "ü"), vec!["héé ", "ü   "]);
}

#[test]
fn frame_of_terminal() {
    let mut t = VirtualTerminal::new(6, 3);
    t.feed_bytes(b"hi\r\nyo");
    let frame = Renderer::new().frame(&t, "st");
    assert_eq!(frame, vec!["hi    ", "yo    ", "st    "]);
}
