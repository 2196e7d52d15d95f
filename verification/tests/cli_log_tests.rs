use restic_manager::cli_log::{log_entry, log_parts, truncate_cli_log_entry, MAX_CLI_LOG_ENTRY_LEN};
use restic_manager::restic::CommandOutput;

#[test]
fn truncate_under_limit_is_unchanged() {
    let entry = "a".repeat(100);
    assert_eq!(truncate_cli_log_entry(&entry), entry);
}

#[test]
fn truncate_over_limit_is_truncated() {
    let entry = "a".repeat(MAX_CLI_LOG_ENTRY_LEN + 500);
    let result = truncate_cli_log_entry(&entry);
    assert!(result.len() <= MAX_CLI_LOG_ENTRY_LEN);
    assert!(result.ends_with("(truncated)\n"));
}

#[test]
fn truncate_respects_char_boundaries() {
    let entry = "é".repeat(MAX_CLI_LOG_ENTRY_LEN);
    let result = truncate_cli_log_entry(&entry);
    assert!(result.len() <= MAX_CLI_LOG_ENTRY_LEN);
}

#[test]
fn log_entry_has_header_lines_and_stderr_block() {
    let lines = vec!["first run line".to_string(), "second".to_string()];
    assert_eq!(
        log_entry("2026-01-05 02:00:00", &lines, Some("a stderr warning")),
        "=== 2026-01-05 02:00:00 ===\nfirst run line\nsecond\n--- stderr ---\na stderr warning\n"
    );
    assert_eq!(log_entry("t", &lines, Some("")), "=== t ===\nfirst run line\nsecond\n");
    assert_eq!(log_entry("t", &vec![], None), "=== t ===\n\n");
}

#[test]
fn log_parts_split_output() {
    let out = CommandOutput {
        success: true,
        code: Some(0),
        stdout: "a\r\nb\n".to_string(),
        stderr: String::new(),
    };
    let (lines, err) = log_parts(&out);
    assert_eq!(lines, vec!["a", "b"]);
    assert_eq!(err, None);
}
