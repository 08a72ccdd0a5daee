use sing_box_for_windows::process::{
    core_args, describe_exit_code, format_exit_error, start_precheck, started_line, strip_ansi,
    utf8_char_width, ExitMonitor, STDERR_TAIL_CAP,
};

#[test]
fn ansi_sequences_are_removed() {
    assert_eq!(strip_ansi("\u{1b}[31mERROR\u{1b}[0m something"), "ERROR something");
    assert_eq!(strip_ansi("plain text"), "plain text");
    assert_eq!(strip_ansi("a\u{1b}b"), "ab");
    assert_eq!(strip_ansi("\u{1b}[1;32;40mok"), "ok");
    assert_eq!(strip_ansi("cut \u{1b}[12"), "cut ");
    assert_eq!(strip_ansi(""), "");
}

#[test]
fn utf8_widths_follow_the_lead_byte() {
    assert_eq!(utf8_char_width(b'a'), 1);
    assert_eq!(utf8_char_width(0xC3), 2);
    assert_eq!(utf8_char_width(0xE2), 3);
    assert_eq!(utf8_char_width(0xF0), 4);
    for (s, w) in [("a", 1usize), ("é", 2), ("€", 3), ("🙂", 4)] {
        assert_eq!(utf8_char_width(s.as_bytes()[0]), w);
        assert_eq!(s.len(), w);
    }
}

#[test]
fn exit_codes_are_described() {
    assert_eq!(describe_exit_code(Some(1)), "exit code 1");
    assert_eq!(describe_exit_code(Some(-1073741510)), "exit code -1073741510");
    assert_eq!(describe_exit_code(None), "terminated by signal");
}

#[test]
fn exit_report_quotes_the_last_failure_line() {
    let tail = vec![
        "INFO starting".to_string(),
        "FATAL[0000] decode config: unknown field".to_string(),
        "  trailing note  ".to_string(),
    ];
    assert_eq!(
        format_exit_error("exit code 1", &tail),
        "sing-box exited (exit code 1): FATAL[0000] decode config: unknown field"
    );
    let no_failure = vec!["first".to_string(), "  last words  ".to_string(), "   ".to_string()];
    assert_eq!(
        format_exit_error("exit code 2", &no_failure),
        "sing-box exited (exit code 2): last words"
    );
    let empty: Vec<String> = Vec::new();
    assert_eq!(
        format_exit_error("terminated by signal", &empty),
        "sing-box exited (terminated by signal). See log for details."
    );
    let mixed_case = vec!["a Panic occurred".to_string(), "ok".to_string()];
    assert_eq!(
        format_exit_error("exit code 3", &mixed_case),
        "sing-box exited (exit code 3): a Panic occurred"
    );
}

#[test]
fn unexpected_failure_is_reported_once() {
    let mut m = ExitMonitor::new();
    m.started();
    assert!(m.running());
    m.record_stderr("ERROR listen tcp: address in use".to_string());
    let report = m.exited(Some(1), false);
    assert_eq!(report.log_line.as_deref(), Some("[launcher] sing-box exited (exit code 1)"));
    assert!(!m.running());
    assert_eq!(
        m.take_exit_error().as_deref(),
        Some("sing-box exited (exit code 1): ERROR listen tcp: address in use")
    );
    assert_eq!(m.take_exit_error(), None);
}

#[test]
fn stop_silences_the_exit() {
    let mut m = ExitMonitor::new();
    m.started();
    m.record_stderr("FATAL boom".to_string());
    assert!(m.stop());
    let report = m.exited(Some(1), false);
    assert!(report.log_line.is_none());
    assert_eq!(m.take_exit_error(), None);
    assert!(!m.stop());
}

#[test]
fn clean_exit_is_logged_without_a_banner() {
    let mut m = ExitMonitor::new();
    m.started();
    let report = m.exited(Some(0), true);
    assert_eq!(report.log_line.as_deref(), Some("[launcher] sing-box exited (exit code 0)"));
    assert_eq!(m.take_exit_error(), None);
}

#[test]
fn start_clears_previous_report_and_tail() {
    let mut m = ExitMonitor::new();
    m.started();
    m.record_stderr("error one".to_string());
    m.exited(Some(1), false);
    m.started();
    assert_eq!(m.take_exit_error(), None);
    let report = m.exited(Some(5), false);
    assert!(report.log_line.is_some());
    assert_eq!(
        m.take_exit_error().as_deref(),
        Some("sing-box exited (exit code 5). See log for details.")
    );
}

#[test]
fn tail_keeps_only_the_latest_lines() {
    let mut m = ExitMonitor::new();
    m.started();
    m.record_stderr("fatal: oldest".to_string());
    for i in 0..STDERR_TAIL_CAP {
        m.record_stderr(format!("line {i}"));
    }
    m.exited(Some(1), false);
    let expected = format!("sing-box exited (exit code 1): line {}", STDERR_TAIL_CAP - 1);
    assert_eq!(m.take_exit_error(), Some(expected));
}

#[test]
fn lost_child_gives_no_report() {
    let mut m = ExitMonitor::new();
    m.started();
    m.lost();
    assert!(!m.running());
    assert_eq!(m.take_exit_error(), None);
}

#[test]
fn start_refusals() {
    assert_eq!(
        start_precheck(true, true, true, "core", "cfg"),
        Err("sing-box is already running".to_string())
    );
    assert_eq!(
        start_precheck(false, false, true, "C:\\x\\core\\sb.exe", "cfg"),
        Err("core not found: C:\\x\\core\\sb.exe".to_string())
    );
    assert_eq!(
        start_precheck(false, true, false, "core", "C:\\x\\config\\a\\config.json"),
        Err("config not found: C:\\x\\config\\a\\config.json".to_string())
    );
    assert_eq!(start_precheck(false, true, true, "core", "cfg"), Ok(()));
}

#[test]
fn command_line_and_start_line() {
    assert_eq!(
        core_args("C:\\r\\sing-box\\config.json", "C:\\r\\sing-box"),
        vec!["run", "-c", "C:\\r\\sing-box\\config.json", "-D", "C:\\r\\sing-box"]
    );
    assert_eq!(started_line("sing-box.exe", "Home"), "[launcher] started sing-box.exe (config: Home)");
}

#[test]
fn cleaned_output_has_no_escape_character() {
    for s in ["\u{1b}[31m\u{1b}[1mred\u{1b}[0m", "\u{1b}\u{1b}[", "a\u{1b}[?25lb\u{1b}", "\u{1b}[38;5;196mx"] {
        assert!(!strip_ansi(s).contains('\u{1b}'), "{s:?}");
    }
}

#[test]
fn cleaning_twice_is_cleaning_once() {
    for s in ["\u{1b}[31mred\u{1b}[0m", "\u{1b}\u{1b}[[x", "a\u{1b}[b", "plain", ""] {
        let once = strip_ansi(s);
        assert_eq!(strip_ansi(&once), once);
        assert!(!once.contains('\u{1b}'));
    }
}
