use typey_pipe::activity::set_input_timeout;
use typey_pipe::audit::{format_log_entry, log_entry};
use typey_pipe::batch::{removal_log, BatchPass, FileStep};
use typey_pipe::delivery::{Attempt, ErrorClass, Injection, Step};
use typey_pipe::drain::{plan_tick, select_oldest, QueueClock, QueueEntry, TickPlan, PAUSED_MESSAGE, RESUMED_MESSAGE};
use typey_pipe::keys::{choose_key_bytes, fallback_bytes, key_bytes, EditKey, KeyCodeView, KeyKind, KeyView, NavKey};
use typey_pipe::session::{command_result, new_session_id, session_id_from_uuid, SessionError, SessionState};
use typey_pipe::text::{injection_text, line_text, queue_command};
use typey_pipe::types::ShellConfig;

fn entry(name: &str, modified: u128) -> QueueEntry {
    QueueEntry { name: name.to_string(), modified }
}

fn transient() -> Attempt {
    Attempt::Failed { class: ErrorClass::WouldBlock, kind: "operation would block".to_string(), detail: "busy".to_string() }
}

#[test]
fn queue_file_is_trimmed_and_ends_with_carriage_return() {
    let command = queue_command("echo hi\n");
    assert_eq!(command, "echo hi");
    assert_eq!(injection_text(&command), "echo hi\r");
    let inj = Injection::start("a", "echo hi\n");
    assert_eq!(inj.bytes.as_bytes(), b"echo hi\r");
    assert_eq!(inj.command, "echo hi");
}

#[test]
fn trimming_keeps_inner_whitespace() {
    assert_eq!(queue_command("  \t ls   -la \r\n "), "ls   -la");
    assert_eq!(queue_command("\u{3000}x\u{a0}"), "x");
    assert_eq!(queue_command("   "), "");
    assert_eq!(line_text("ls"), "ls\n");
}

#[test]
fn oldest_file_is_selected_first_on_ties() {
    assert_eq!(select_oldest(&vec![]), None);
    let v = vec![entry("c", 30), entry("a", 10), entry("b", 10), entry("d", 40)];
    assert_eq!(select_oldest(&v), Some(1));
}

#[test]
fn one_file_per_window_needs_n_windows() {
    let mut tracker = set_input_timeout(30);
    let mut files = vec![entry("1", 1), entry("2", 2), entry("3", 3)];
    let mut clock = QueueClock::new(0);
    let mut windows = 0;
    let mut now: u64 = 100_000;
    while !files.is_empty() {
        now += 250;
        if !clock.check_due(now) {
            continue;
        }
        windows += 1;
        match plan_tick(&mut tracker, now, &files) {
            TickPlan::Idle { target: Some(i), .. } => {
                files.remove(i);
            }
            other => panic!("unexpected plan {:?}", other),
        }
    }
    assert_eq!(windows, 3);
}

#[test]
fn clock_opens_a_window_once_a_second() {
    let mut clock = QueueClock::new(1_000);
    assert!(!clock.check_due(1_500));
    assert!(!clock.check_due(1_999));
    assert!(clock.check_due(2_000));
    assert!(!clock.check_due(2_999));
    assert!(clock.check_due(3_100));
}

#[test]
fn keystroke_pauses_queue_for_the_timeout() {
    let mut tracker = set_input_timeout(5);
    let files = vec![entry("x", 1)];
    tracker.update_user_input(10_000);
    assert_eq!(plan_tick(&mut tracker, 10_000, &files), TickPlan::Paused { log_pause: true });
    assert_eq!(plan_tick(&mut tracker, 14_999, &files), TickPlan::Paused { log_pause: false });
    assert_eq!(plan_tick(&mut tracker, 15_000, &files), TickPlan::Paused { log_pause: false });
    assert_eq!(
        plan_tick(&mut tracker, 15_001, &files),
        TickPlan::Idle { log_resume: true, target: Some(0) }
    );
    assert_eq!(
        plan_tick(&mut tracker, 16_001, &files),
        TickPlan::Idle { log_resume: false, target: Some(0) }
    );
    assert!(PAUSED_MESSAGE.contains("paused"));
    assert!(RESUMED_MESSAGE.contains("resumed"));
}

#[test]
fn timeout_is_in_seconds() {
    let t = set_input_timeout(30);
    assert_eq!(t.timeout_ms, 30_000);
    assert!(!t.is_user_typing(30_001));
    assert!(t.is_user_typing(30_000));
}

#[test]
fn fifty_transient_write_failures_give_up_once() {
    let mut inj = Injection::start("job1", "make\n");
    let mut gave_up = 0;
    let mut retries = 0;
    for _ in 0..50 {
        match inj.on_result(transient()) {
            Step::RetryWrite => retries += 1,
            Step::GaveUp { message } => {
                gave_up += 1;
                assert_eq!(
                    message,
                    "❌ Gave up after 50 retries for: job1 (operation would block)\nCommand was:\nmake"
                );
            }
            other => panic!("unexpected step {:?}", other),
        }
    }
    assert_eq!(retries, 49);
    assert_eq!(gave_up, 1);
}

#[test]
fn write_then_flush_delivers() {
    let mut inj = Injection::start("f", "ls");
    assert_eq!(inj.processing_log(), "🔄 Processing: f\nls");
    assert!(matches!(inj.on_result(Attempt::Done), Step::Flush));
    assert!(matches!(inj.on_result(transient()), Step::RetryFlush));
    assert!(matches!(inj.on_result(Attempt::Done), Step::Delivered));
}

#[test]
fn fatal_errors_end_the_injection() {
    let mut inj = Injection::start("f", "ls");
    let fatal = Attempt::Failed { class: ErrorClass::Other, kind: "other".to_string(), detail: "broken pipe".to_string() };
    match inj.on_result(fatal) {
        Step::Failed { message } => {
            assert_eq!(message, "❌ Failed to inject command from: f\nError: broken pipe\nCommand was:\nls")
        }
        other => panic!("unexpected step {:?}", other),
    }
    let mut inj = Injection::start("g", "pwd");
    inj.on_result(Attempt::Done);
    let fatal = Attempt::Failed { class: ErrorClass::Other, kind: "other".to_string(), detail: "gone".to_string() };
    match inj.on_result(fatal) {
        Step::Failed { message } => {
            assert_eq!(message, "❌ Failed to flush PTY writer for: g\nError: gone\nCommand was:\npwd")
        }
        other => panic!("unexpected step {:?}", other),
    }
    assert!(ErrorClass::Interrupted.is_transient());
    assert!(!ErrorClass::Other.is_transient());
}

#[test]
fn empty_pass_has_no_results() {
    let pass = BatchPass::new();
    assert_eq!(pass.len(), 0);
}

#[test]
fn pass_over_three_files_reports_three() {
    let mut pass = BatchPass::new();
    for name in ["a", "b", "c"] {
        match pass.begin_file(name, Ok(format!("echo {}\n", name))) {
            FileStep::Send { line, command, log } => {
                assert_eq!(line, format!("echo {}\n", name));
                assert_eq!(command, format!("echo {}", name));
                assert_eq!(log, format!("🔄 Processing queue file: {} -> echo {}", name, name));
            }
            FileStep::Skip { .. } => panic!("expected a send"),
        }
        assert!(pass.finish_file(name, Ok(())).is_none());
        assert_eq!(removal_log(name, Ok(())), format!("✅ Completed and removed: {}", name));
    }
    assert_eq!(pass.len(), 3);
    assert!(pass.results.iter().all(|(_, r)| r.success && r.output == "Command sent to shell"));
}

#[test]
fn pass_failures_are_recorded() {
    let mut pass = BatchPass::new();
    match pass.begin_file("bad", Err("denied".to_string())) {
        FileStep::Skip { log } => assert_eq!(log, "❌ Error reading queue file bad: denied"),
        _ => panic!("expected a skip"),
    }
    assert_eq!(pass.len(), 1);
    assert_eq!(pass.results[0].0, "bad");
    assert_eq!(pass.results[0].1.output, "Error: denied");
    assert!(!pass.results[0].1.success);
    let log = pass.finish_file("x", Err("detached".to_string()));
    assert_eq!(log.unwrap(), "❌ Error processing x: detached");
    assert_eq!(pass.results[1].1.output, "Error: detached");
    assert!(!pass.results[1].1.success);
    pass.finish_file("x", Ok(()));
    assert_eq!(pass.len(), 2);
    assert!(pass.results[1].1.success);
    assert_eq!(removal_log("x", Err("busy".to_string())), "⚠️  Warning: Failed to remove queue file x: busy");
}

#[test]
fn log_entry_holds_message_after_timestamp() {
    assert_eq!(format_log_entry("2024-01-02 03:04:05 UTC", "hello"), "[2024-01-02 03:04:05 UTC] hello\n");
    let line = log_entry("queued work");
    assert!(line.ends_with("] queued work\n"));
    let stamp = &line[1..line.len() - "] queued work\n".len()];
    let b = stamp.as_bytes();
    assert_eq!(b.len(), 23);
    for (i, c) in b.iter().enumerate() {
        match i {
            4 | 7 => assert_eq!(*c, b'-'),
            10 | 19 => assert_eq!(*c, b' '),
            13 | 16 => assert_eq!(*c, b':'),
            20..=22 => {}
            _ => assert!(c.is_ascii_digit()),
        }
    }
    assert!(stamp.ends_with(" UTC"));
    assert!(line.starts_with('['));
}

#[test]
fn session_id_shape() {
    assert_eq!(session_id_from_uuid("0123abcd-ffff-4000-8000-000000000000"), "tp-0123abcd");
    let id = new_session_id();
    assert_eq!(id.len(), 11);
    assert!(id.starts_with("tp-"));
    assert!(id[3..].chars().all(|c| c.is_ascii_hexdigit() && !c.is_ascii_uppercase()));
}

#[test]
fn session_writer_is_handed_off_once() {
    let config = ShellConfig::from_shell_var(Some("/bin/sh".to_string()));
    assert_eq!((config.cols, config.rows), (80, 24));
    assert_eq!(ShellConfig::from_shell_var(None).shell_path, "/bin/bash");
    let mut s = SessionState::new(&config, "tp-1".to_string());
    assert_eq!(s.session_id(), "tp-1");
    assert_eq!(s.check_send(), Ok(()));
    s.resize(50, 120);
    assert_eq!((s.rows, s.cols), (50, 120));
    assert!(s.take_pty_writer());
    assert!(!s.take_pty_writer());
    assert_eq!(s.check_send(), Err(SessionError::Detached));
}

#[test]
fn command_result_always_succeeds() {
    let r = command_result(Some("out".to_string()));
    assert_eq!(r.output, "out");
    assert!(r.success);
    let r = command_result(None);
    assert_eq!(r.output, "Command executed");
    assert!(r.success);
}

fn key(code: KeyCodeView, ctrl: bool) -> KeyView {
    KeyView { code, shift: false, alt: false, ctrl, super_key: false, kind: KeyKind::Press }
}

#[test]
fn key_fallback_encoding() {
    assert_eq!(fallback_bytes(key(KeyCodeView::Char('c'), true)), Some(vec![3]));
    assert_eq!(fallback_bytes(key(KeyCodeView::Char('a'), false)), Some(vec![97]));
    assert_eq!(fallback_bytes(key(KeyCodeView::Nav(NavKey::Up), true)), None);
    let k = key(KeyCodeView::Char('a'), false);
    assert_eq!(choose_key_bytes(Some(vec![27, 91, 65]), k), Some(vec![27, 91, 65]));
    assert_eq!(choose_key_bytes(None, k), Some(vec![97]));
    assert_eq!(choose_key_bytes(None, key(KeyCodeView::Edit(EditKey::Esc), false)), None);
}

#[test]
fn key_event_is_encoded_by_terminal_encoding() {
    assert_eq!(key_bytes(key(KeyCodeView::Nav(NavKey::Up), false)), Some(b"\x1b[A".to_vec()));
    assert_eq!(key_bytes(key(KeyCodeView::Char('x'), false)), Some(vec![b'x']));
    assert_eq!(key_bytes(key(KeyCodeView::Char('c'), true)), Some(vec![3]));
    assert_eq!(key_bytes(key(KeyCodeView::Edit(EditKey::Enter), false)), Some(b"\r".to_vec()));
}

#[test]
fn keys_without_encoding_use_fallback() {
    // Control with a character whose code point ends in 0xFF goes straight to the fallback.
    assert_eq!(key_bytes(key(KeyCodeView::Char('\u{ff}'), true)), Some(vec![0x1f]));
    // A released key has no xterm encoding; a character key then falls back.
    let released = KeyView { kind: KeyKind::Release, ..key(KeyCodeView::Char('q'), false) };
    assert_eq!(key_bytes(released), Some(vec![b'q']));
    let released = KeyView { kind: KeyKind::Release, ..key(KeyCodeView::Nav(NavKey::Up), false) };
    assert_eq!(key_bytes(released), None);
    assert_eq!(key_bytes(key(KeyCodeView::Other, false)), None);
    assert_eq!(key_bytes(key(KeyCodeView::F(1), false)), Some(b"\x1bOP".to_vec()));
}
