use gateway_supervisor::files::FileSnapshot;
use gateway_supervisor::logs::{
    clear_failure, clear_gateway_logs, get_gateway_logs, tail, ClearAction, DEFAULT_LOG_LINES,
};

fn content(s: &str) -> FileSnapshot {
    FileSnapshot::Content { text: s.to_string() }
}

fn numbered(count: usize) -> String {
    let mut text = String::new();
    for i in 1..=count {
        text.push_str(&format!("line {}\n", i));
    }
    text
}

#[test]
fn tail_of_a_long_log_is_its_last_lines() {
    assert_eq!(tail("a\nb\nc\nd\ne\n", 2), "d\ne");
    assert_eq!(tail("a\nb\nc\nd\ne", 3), "c\nd\ne");
    assert_eq!(tail("a\nb\nc", 1), "c");
}

#[test]
fn tail_of_a_short_log_is_the_whole_log() {
    assert_eq!(tail("a\nb\nc", 5), "a\nb\nc");
    assert_eq!(tail("a\nb\nc", 3), "a\nb\nc");
    assert_eq!(tail("a\nb\nc\n", 3), "a\nb\nc");
    assert_eq!(tail("only", 100), "only");
}

#[test]
fn tail_of_no_lines() {
    assert_eq!(tail("a\nb", 0), "");
    assert_eq!(tail("", 0), "");
    assert_eq!(tail("", 10), "");
}

#[test]
fn tail_keeps_empty_lines() {
    assert_eq!(tail("a\n\nb\n\n", 3), "\nb\n");
    assert_eq!(tail("\n", 5), "");
    assert_eq!(tail("\n\n", 5), "\n");
}

#[test]
fn tail_ends_lines_at_carriage_return_line_feed() {
    assert_eq!(tail("a\r\nb\r\nc\r\n", 2), "b\nc");
    assert_eq!(tail("a\rb\nc", 5), "a\rb\nc");
    assert_eq!(tail("a\nb\r", 5), "a\nb\r");
    assert_eq!(tail("a\r\r\nb", 5), "a\r\nb");
}

#[test]
fn tail_handles_text_beyond_ascii() {
    assert_eq!(tail("grüße\n日本語\nend", 2), "日本語\nend");
}

#[test]
fn logs_default_to_a_hundred_lines() {
    assert_eq!(DEFAULT_LOG_LINES, 100);
    let log = content(&numbered(250));
    let shown = get_gateway_logs(Some(&log), None).unwrap();
    let lines: Vec<&str> = shown.split('\n').collect();
    assert_eq!(lines.len(), 100);
    assert_eq!(lines[0], "line 151");
    assert_eq!(lines[99], "line 250");
}

#[test]
fn logs_with_a_line_count() {
    let log = content(&numbered(250));
    assert_eq!(get_gateway_logs(Some(&log), Some(3)), Ok("line 248\nline 249\nline 250".to_string()));
    assert_eq!(get_gateway_logs(Some(&content(&numbered(2))), Some(3)), Ok("line 1\nline 2".to_string()));
    assert_eq!(get_gateway_logs(Some(&log), Some(0)), Ok("".to_string()));
}

#[test]
fn logs_that_do_not_exist_yet() {
    assert_eq!(
        get_gateway_logs(Some(&FileSnapshot::Absent), None),
        Ok("No logs available yet. Start the gateway to see logs.".to_string())
    );
    assert_eq!(
        get_gateway_logs(Some(&FileSnapshot::Absent), Some(5)),
        Ok("No logs available yet. Start the gateway to see logs.".to_string())
    );
}

#[test]
fn logs_that_cannot_be_read() {
    let log = FileSnapshot::Unreadable { detail: "stream did not contain valid UTF-8".to_string() };
    assert_eq!(
        get_gateway_logs(Some(&log), None),
        Err("Failed to read log file: stream did not contain valid UTF-8".to_string())
    );
}

#[test]
fn logs_without_home() {
    assert_eq!(get_gateway_logs(None, None), Err("Could not find home directory".to_string()));
}

#[test]
fn clearing_an_existing_log_truncates_it() {
    assert_eq!(clear_gateway_logs(Some(true)), Ok(ClearAction::Truncate));
}

#[test]
fn clearing_a_missing_log_does_nothing() {
    assert_eq!(clear_gateway_logs(Some(false)), Ok(ClearAction::Nothing));
}

#[test]
fn clearing_without_home() {
    assert_eq!(clear_gateway_logs(None), Err("Could not find home directory".to_string()));
}

#[test]
fn clear_failure_names_the_cause() {
    assert_eq!(clear_failure("Permission denied"), "Failed to clear logs: Permission denied");
}

#[test]
fn a_cleared_log_reads_empty() {
    assert_eq!(clear_gateway_logs(Some(true)), Ok(ClearAction::Truncate));
    let emptied = content("");
    assert_eq!(get_gateway_logs(Some(&emptied), None), Ok("".to_string()));
    assert_eq!(get_gateway_logs(Some(&emptied), Some(7)), Ok("".to_string()));
}
