use restic_manager::backup::{format_progress, path_to_arg, Backup, BackupProgress, HookOutcome, HookStep, ProgressEvent};
use restic_manager::config::{Config, Hook, Job, Repository, ResolvedConfig};
use restic_manager::errors::{AppError, ResticError};
use restic_manager::names::NameMap;
use restic_manager::secrets::Secrets;

fn test_config() -> ResolvedConfig {
    let mut repositories = NameMap::new();
    repositories.insert(
        "test".to_string(),
        Repository {
            repo: "/tmp/test-repo".to_string(),
            password_key: "test-password".to_string(),
            log_cli_output: None,
        },
    );
    let mut jobs = NameMap::new();
    jobs.insert(
        "test-job".to_string(),
        Job {
            repository: "test".to_string(),
            paths: vec!["/tmp".to_string()],
            ..Default::default()
        },
    );
    let mut values = NameMap::new();
    values.insert("test-password".to_string(), "test-secret".to_string());
    ResolvedConfig {
        config: Config { repositories, jobs },
        secrets: Secrets { values, telegram: None },
    }
}

#[test]
fn test_truncate_hook_stderr_short_text_unchanged() {
    let text = "a normal error message";
    assert_eq!(Backup::truncate_hook_stderr(text), text);
}

#[test]
fn test_truncate_hook_stderr_over_limit_is_truncated() {
    let text = "a".repeat(Backup::MAX_HOOK_STDERR_LEN + 500);
    let result = Backup::truncate_hook_stderr(&text);
    assert!(result.len() <= Backup::MAX_HOOK_STDERR_LEN);
    assert!(result.ends_with("(truncated)"));
}

#[test]
fn test_truncate_hook_stderr_respects_char_boundaries() {
    let text = "é".repeat(Backup::MAX_HOOK_STDERR_LEN);
    let result = Backup::truncate_hook_stderr(&text);
    assert!(result.len() <= Backup::MAX_HOOK_STDERR_LEN);
}

#[test]
fn truncate_hook_stderr_keeps_longest_prefix() {
    let text = "a".repeat(5000);
    let result = Backup::truncate_hook_stderr(&text);
    assert_eq!(result.len(), 4096);
    assert_eq!(result, format!("{}... (truncated)", "a".repeat(4096 - 15)));
}

#[test]
fn test_path_to_arg_with_utf8_path() {
    let result = path_to_arg("/normal/path");
    assert_eq!(result, "/normal/path");
    assert_ne!(result, ".");
}

#[test]
fn test_path_to_arg_never_returns_dot_for_valid_paths() {
    let test_paths = vec!["file.txt", "/absolute/path", "./relative"];
    for path in test_paths {
        let result = path_to_arg(path);
        assert_ne!(result, ".", "path_to_arg returned '.' for path: {:?}", path);
    }
}

#[test]
fn test_job_lookup() {
    let resolved = test_config();
    let job = resolved.config.get_job("test-job");
    assert!(job.is_some());
    assert_eq!(job.unwrap().repository, "test");
}

#[test]
fn backup_test_missing_job() {
    let resolved = test_config();
    let result = Backup::plan(&resolved, "nonexistent", false);
    assert!(result.is_err());
}

#[test]
fn backup_test_missing_repository() {
    let mut resolved = test_config();
    resolved.secrets.values.clear();
    let result = Backup::plan(&resolved, "test-job", false);
    assert!(result.is_err());
}

#[test]
fn test_missing_password() {
    let mut jobs = NameMap::new();
    jobs.insert(
        "test-job".to_string(),
        Job { repository: "test".to_string(), paths: vec!["/tmp".to_string()], ..Default::default() },
    );
    let config = ResolvedConfig {
        config: Config { repositories: NameMap::new(), jobs },
        secrets: Secrets { values: NameMap::new(), telegram: None },
    };
    let result = Backup::plan(&config, "test-job", false);
    match result {
        Err(AppError::Other(m)) => assert_eq!(m, "Repository 'test' not found"),
        _ => panic!("expected an error"),
    }
}

#[test]
fn test_dry_run_skips_pre_backup_hooks() {
    let mut resolved = test_config();
    let mut job = resolved.config.jobs.remove("test-job").unwrap();
    job.pre_backup = vec![Hook::Command {
        command: "definitely-not-a-real-command-98765".to_string(),
        args: vec![],
        continue_on_error: false,
    }];
    resolved.config.jobs.insert("test-job".to_string(), job);
    let plan = Backup::plan(&resolved, "test-job", true).unwrap();
    assert!(plan.pre_hooks.is_empty());
    assert!(plan.post_hooks.is_empty());
    let plan = Backup::plan(&resolved, "test-job", false).unwrap();
    assert_eq!(plan.pre_hooks.len(), 1);
}

#[test]
fn test_hooks_command_failure_aborts_by_default() {
    let result = Backup::hook_result("test", "false", false, false, Some(1), "boom");
    match result {
        Err(AppError::Other(m)) => assert_eq!(m, "test hook 'false' failed (exit Some(1)): boom"),
        _ => panic!("expected a hook failure"),
    }
}

#[test]
fn test_hooks_command_failure_continues_when_opted_in() {
    assert!(Backup::hook_result("test", "false", true, false, Some(1), "boom").is_ok());
    assert!(Backup::hook_result("test", "true", false, true, Some(0), "").is_ok());
}

#[test]
fn test_hooks_command_not_found() {
    match Backup::hook_spawn_failure("pre-backup", "No such file or directory") {
        AppError::Other(m) => {
            assert_eq!(m, "Failed to execute pre-backup hook: No such file or directory");
            assert!(m.contains("pre-backup hook"));
        }
        _ => panic!("expected Other"),
    }
}

#[test]
fn test_parse_backup_output_valid() {
    let json = r#"{"summary":{"files_new":1,"files_changed":2,"files_unmodified":3,"dirs_new":1,"dirs_changed":0,"dirs_unmodified":2,"data_blobs":5,"tree_blobs":3,"data_added":1024,"duration":1.5},"snapshot_id":"abc123"}"#;
    let result = Backup::parse_backup_output(json);
    assert!(result.is_ok());
    let r = result.unwrap();
    assert_eq!(r.files_new, 1);
    assert_eq!(r.files_changed, 2);
    assert_eq!(r.files_unmodified, 3);
    assert_eq!(r.data_added, 1024);
    assert_eq!(r.snapshot_id, Some("abc123".to_string()));
}

#[test]
fn test_parse_backup_output_no_summary() {
    let result = Backup::parse_backup_output("not json");
    assert!(result.is_err());
}

#[test]
fn test_parse_backup_output_empty() {
    let result = Backup::parse_backup_output("");
    assert!(result.is_err());
}

#[test]
fn test_parse_backup_output_missing_fields() {
    let json = r#"{"summary":{}}"#;
    let r = Backup::parse_backup_output(json).unwrap();
    assert_eq!(r.files_new, 0);
    assert_eq!(r.data_added, 0);
    assert_eq!(r.snapshot_id, None);
}

#[test]
fn test_parse_backup_output_partial_defaults_false() {
    let json = r#"{"summary":{"files_new":1},"snapshot_id":"abc123"}"#;
    let result = Backup::parse_backup_output(json).unwrap();
    assert!(!result.partial);
}

#[test]
fn test_parse_backup_output_errors_count_defaults_zero() {
    let json = r#"{"summary":{"files_new":1},"snapshot_id":"abc123"}"#;
    let result = Backup::parse_backup_output(json).unwrap();
    assert_eq!(result.errors_count, 0);
}

#[test]
fn backup_command_lists_arguments_in_order() {
    let resolved = test_config();
    let plan = Backup::plan(&resolved, "test-job", true).unwrap();
    let cmd = Backup::backup_command(&plan, Some("/etc/excludes"));
    assert_eq!(
        cmd.args,
        vec!["backup", "--dry-run", "--json", "--repo", "/tmp/test-repo", "--exclude-file", "/etc/excludes", "/tmp"]
    );
    assert_eq!(cmd.password, "test-secret");
}

#[test]
fn progress_tracks_highest_error_count_and_summary() {
    let mut p = BackupProgress::new();
    let e = p.observe(r#"{"message_type":"status","files_done":1,"total_files":2,"error_count":2}"#.to_string());
    assert_eq!(
        e,
        ProgressEvent::Status { files_done: 1, total_files: 2, bytes_done: 0, total_bytes: 0, errors: 2 }
    );
    p.observe(r#"{"message_type":"status","error_count":1}"#.to_string());
    assert_eq!(p.errors_count, 2);
    assert_eq!(p.observe("garbage".to_string()), ProgressEvent::Ignored);
    assert!(!p.finished);
    let line = r#"{"message_type":"summary","summary":{"files_new":4},"snapshot_id":"s1"}"#;
    assert_eq!(p.observe(line.to_string()), ProgressEvent::Summary);
    assert!(p.finished);
    let r = Backup::finish(&p, false, Some(3), "warning").unwrap();
    assert!(r.partial);
    assert_eq!(r.errors_count, 2);
    assert_eq!(r.files_new, 4);
    assert_eq!(r.snapshot_id.as_deref(), Some("s1"));
}

#[test]
fn finish_reports_restic_failure_with_stderr() {
    let p = BackupProgress::new();
    match Backup::finish(&p, false, Some(1), "wrong password") {
        Err(AppError::Restic(ResticError::CommandFailed(m))) => assert_eq!(m, "wrong password"),
        _ => panic!("expected CommandFailed"),
    }
}

fn obj(fields: Vec<(&str, restic_manager::json::JsonValue)>) -> restic_manager::json::JsonValue {
    restic_manager::json::JsonValue::Object(fields.into_iter().map(|(k, v)| (k.to_string(), v)).collect())
}

fn num(n: u64) -> restic_manager::json::JsonValue {
    restic_manager::json::JsonValue::Number(restic_manager::json::JsonNumber { as_u64: Some(n), as_i64: Some(n as i64) })
}

fn text(s: &str) -> restic_manager::json::JsonValue {
    restic_manager::json::JsonValue::String(s.to_string())
}

#[test]
fn summary_from_json_reads_counters() {
    let v = obj(vec![
        ("summary", obj(vec![("files_new", num(5)), ("data_added", num(4096)), ("files_changed", text("x"))])),
        ("snapshot_id", text("snap")),
    ]);
    let r = restic_manager::backup::summary_from_json(&v);
    assert_eq!(r.files_new, 5);
    assert_eq!(r.files_changed, 0);
    assert_eq!(r.data_added, 4096);
    assert_eq!(r.snapshot_id.as_deref(), Some("snap"));
    assert!(!r.partial);
}

#[test]
fn event_from_json_reads_message_type() {
    let v = obj(vec![("message_type", text("verbose_status")), ("item", text("/a")), ("action", text("new"))]);
    assert_eq!(
        BackupProgress::event_from_json(&v),
        ProgressEvent::Verbose { action: "new".to_string(), item: "/a".to_string() }
    );
    let v = obj(vec![("message_type", text("verbose_status"))]);
    assert_eq!(BackupProgress::event_from_json(&v), ProgressEvent::Ignored);
    let v = obj(vec![("message_type", text("summary"))]);
    assert_eq!(BackupProgress::event_from_json(&v), ProgressEvent::Summary);
}

fn command_hook(command: &str, continue_on_error: bool) -> Hook {
    Hook::Command { command: command.to_string(), args: vec![], continue_on_error }
}

fn exited(success: bool, code: i32, stderr: &str) -> HookOutcome {
    HookOutcome::Exited { success, code: Some(code), stderr: stderr.to_string() }
}

#[test]
fn next_hook_runs_hooks_in_order_then_finishes() {
    let hooks = vec![command_hook("dump", false), Hook::Wait { seconds: 0 }, command_hook("true", false)];
    let mut outcomes: Vec<HookOutcome> = Vec::new();
    assert_eq!(Backup::next_hook(&hooks, "pre-backup", &outcomes).unwrap(), HookStep::Run(0));
    outcomes.push(exited(true, 0, ""));
    assert_eq!(Backup::next_hook(&hooks, "pre-backup", &outcomes).unwrap(), HookStep::Run(1));
    outcomes.push(HookOutcome::Waited);
    assert_eq!(Backup::next_hook(&hooks, "pre-backup", &outcomes).unwrap(), HookStep::Run(2));
    outcomes.push(exited(true, 0, ""));
    assert_eq!(Backup::next_hook(&hooks, "pre-backup", &outcomes).unwrap(), HookStep::Done);
}

#[test]
fn next_hook_waits_never_fail() {
    let hooks = vec![Hook::Wait { seconds: 0 }, Hook::Wait { seconds: 0 }];
    let outcomes = vec![HookOutcome::Waited, HookOutcome::Waited];
    assert_eq!(Backup::next_hook(&hooks, "post-backup", &outcomes).unwrap(), HookStep::Done);
    assert_eq!(Backup::next_hook(&[], "post-backup", &Vec::new()).unwrap(), HookStep::Done);
}

#[test]
fn next_hook_stops_at_first_failure() {
    let hooks = vec![command_hook("false", false), command_hook("true", false)];
    let outcomes = vec![exited(false, 2, "disk full")];
    match Backup::next_hook(&hooks, "pre-backup", &outcomes) {
        Err(AppError::Other(m)) => assert_eq!(m, "pre-backup hook 'false' failed (exit Some(2)): disk full"),
        _ => panic!("expected the first hook's failure"),
    }
}

#[test]
fn next_hook_continues_past_tolerated_failure() {
    let hooks = vec![command_hook("false", true), command_hook("true", false)];
    let outcomes = vec![exited(false, 1, "oops")];
    assert_eq!(Backup::next_hook(&hooks, "pre-backup", &outcomes).unwrap(), HookStep::Run(1));
}

#[test]
fn next_hook_reports_unstartable_command() {
    let hooks = vec![command_hook("missing-cmd", true)];
    let outcomes = vec![HookOutcome::NotStarted("No such file or directory".to_string())];
    match Backup::next_hook(&hooks, "post-backup", &outcomes) {
        Err(AppError::Other(m)) => assert_eq!(m, "Failed to execute post-backup hook: No such file or directory"),
        _ => panic!("expected a start failure"),
    }
}

#[test]
fn format_progress_without_errors() {
    assert_eq!(format_progress(10, 20, "5 B", "1.000 KiB", 0), "10 files, total 20 files 1.000 KiB");
}

#[test]
fn format_progress_with_errors() {
    assert_eq!(
        format_progress(3, 120, "2.500 MiB", "9.000 MiB", 4),
        "3 files, total 120 files 9.000 MiB (4 errors), 2.500 MiB"
    );
}

fn drive_hooks(hooks: &[Hook], results: Vec<HookOutcome>) -> (usize, Result<(), AppError>) {
    let mut results = results.into_iter();
    let mut outcomes: Vec<HookOutcome> = Vec::new();
    loop {
        match Backup::next_hook(hooks, "pre-backup", &outcomes) {
            Ok(HookStep::Done) => return (outcomes.len(), Ok(())),
            Ok(HookStep::Run(i)) => {
                assert_eq!(i, outcomes.len());
                outcomes.push(results.next().unwrap());
            }
            Err(e) => return (outcomes.len(), Err(e)),
        }
    }
}

#[test]
fn hook_run_stops_at_first_failure_and_starts_nothing_after() {
    let hooks = vec![command_hook("a", false), command_hook("b", false), Hook::Wait { seconds: 0 }];
    let (started, result) =
        drive_hooks(&hooks, vec![exited(true, 0, ""), exited(false, 3, "bad"), HookOutcome::Waited]);
    assert_eq!(started, 2);
    match result {
        Err(AppError::Other(m)) => assert_eq!(m, "pre-backup hook 'b' failed (exit Some(3)): bad"),
        _ => panic!("expected the second hook's failure"),
    }
}

#[test]
fn hook_run_succeeds_when_every_hook_passes() {
    let hooks = vec![command_hook("a", true), Hook::Wait { seconds: 0 }, command_hook("c", false)];
    let (started, result) =
        drive_hooks(&hooks, vec![exited(false, 1, "tolerated"), HookOutcome::Waited, exited(true, 0, "")]);
    assert_eq!(started, 3);
    assert!(result.is_ok());
}
