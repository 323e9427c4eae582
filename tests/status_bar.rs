use typey_pipe::status_bar::StatusBar;

#[test]
fn test_status_bar_creation() {
    let status_bar = StatusBar::new(80);
    assert_eq!(status_bar.terminal_width, 80);
    assert!(status_bar.is_enabled());
}

#[test]
fn test_status_bar_render() {
    let mut status_bar = StatusBar::new(80);
    status_bar.update(80);
    let rendered = status_bar.render();
    assert!(!rendered.is_empty());
}

#[test]
fn test_status_bar_disabled() {
    let mut status_bar = StatusBar::new(80);
    status_bar.set_enabled(false);
    let rendered = status_bar.render();
    assert!(rendered.is_empty());
}

#[test]
fn status_bar_pads_to_width() {
    let mut bar = StatusBar::new(40);
    bar.current_time = "T".to_string();
    bar.shell_info = "S".to_string();
    bar.update_current_directory(Some("dir".to_string()));
    let r = bar.render();
    // "T │ S" is 7 bytes, "📁 dir" is 8 bytes, 38 available: 23 spaces.
    assert_eq!(r, format!("T │ S{}📁 dir", " ".repeat(23)));
}

#[test]
fn status_bar_shortens_long_directory() {
    let mut bar = StatusBar::new(20);
    bar.current_time = "T".to_string();
    bar.shell_info = "S".to_string();
    bar.update_current_directory(Some("abcdefghijklmnop".to_string()));
    let r = bar.render();
    assert!(r.starts_with("T │ S"));
    assert!(r.contains("📁 ..."));
    assert!(r.ends_with("p"));
}

#[test]
fn status_bar_shell_name_is_last_segment() {
    let mut bar = StatusBar::new(80);
    bar.update_shell_info(Some("/usr/bin/zsh".to_string()));
    assert_eq!(bar.shell_info, "🐚 zsh");
    bar.update_shell_info(None);
    assert_eq!(bar.shell_info, "🐚 unknown");
    bar.update_current_directory(None);
    assert_eq!(bar.current_directory, "~");
}

#[test]
fn status_bar_style_wraps_and_recolours() {
    let mut bar = StatusBar::new(30);
    bar.current_time = "T".to_string();
    bar.shell_info = "S".to_string();
    bar.update_current_directory(Some("d".to_string()));
    let r = bar.render_with_style();
    assert!(r.starts_with("\x1b[48;5;236m\x1b[38;5;250m"));
    assert!(r.ends_with("\x1b[0m"));
    assert!(r.contains("\x1b[38;5;14m│\x1b[38;5;250m"));
    assert!(r.contains("\x1b[38;5;11m📁\x1b[38;5;250m"));
    bar.set_enabled(false);
    assert!(bar.render_with_style().is_empty());
}

#[test]
fn status_bar_update_shows_clock() {
    let mut bar = StatusBar::new(10);
    bar.update(100);
    assert_eq!(bar.terminal_width, 100);
    let clock = bar.current_time.strip_prefix("🕐 ").expect("clock sign");
    let b = clock.as_bytes();
    assert_eq!(b.len(), 5);
    assert!(b[0].is_ascii_digit() && b[1].is_ascii_digit() && b[3].is_ascii_digit() && b[4].is_ascii_digit());
    assert_eq!(b[2], b':');
}
