use restic_manager::json::JsonValue;
use restic_manager::config::{Config, Job, Repository, ResolvedConfig, RetentionPolicy};
use restic_manager::names::NameMap;
use restic_manager::restic::CommandOutput;
use restic_manager::secrets::Secrets;
use restic_manager::snapshot::{RetentionStep, SnapshotManager};

fn config_with(retention: Option<RetentionPolicy>, password_key: &str) -> ResolvedConfig {
    let mut repositories = NameMap::new();
    repositories.insert(
        "test".to_string(),
        Repository {
            repo: "/tmp/test-repo".to_string(),
            password_key: password_key.to_string(),
            log_cli_output: None,
        },
    );
    let mut jobs = NameMap::new();
    jobs.insert(
        "test-job".to_string(),
        Job { repository: "test".to_string(), paths: vec!["/tmp".to_string()], retention, ..Default::default() },
    );
    let mut values = NameMap::new();
    values.insert("test-password".to_string(), "test-secret".to_string());
    ResolvedConfig { config: Config { repositories, jobs }, secrets: Secrets { values, telegram: None } }
}

#[test]
fn test_retention_args() {
    let mut args = vec![];
    let retention = RetentionPolicy::default();
    SnapshotManager::apply_retention_args(&mut args, &retention);
    assert!(args.contains(&"--keep-daily".to_string()));
    assert!(args.contains(&"7".to_string()));
    assert!(args.contains(&"--keep-weekly".to_string()));
    assert!(args.contains(&"4".to_string()));
    assert!(args.contains(&"--keep-last".to_string()));
    assert!(args.contains(&"3".to_string()));
}

#[test]
fn test_retention_args_empty() {
    let mut args = vec![];
    let retention = RetentionPolicy {
        keep_daily: None,
        keep_weekly: None,
        keep_monthly: None,
        keep_yearly: None,
        keep_hourly: None,
        keep_last: None,
    };
    SnapshotManager::apply_retention_args(&mut args, &retention);
    assert!(args.is_empty());
}

#[test]
fn test_parse_snapshots_empty() {
    let list = SnapshotManager::parse_snapshots("").unwrap();
    assert!(list.snapshots.is_empty());
}

#[test]
fn test_parse_forget_output_empty() {
    assert!(SnapshotManager::parse_forget_output("").unwrap().is_empty());
}

#[test]
fn test_job_not_found() {
    let config = config_with(None, "test-password");
    assert!(SnapshotManager::list_command(&config, "nonexistent").is_err());
}

#[test]
fn test_forget_no_retention_policy() {
    let config = config_with(None, "test-password");
    let result = SnapshotManager::forget_command(&config, "test-job", false);
    assert!(result.is_err());
}

#[test]
fn test_parse_snapshots_json() {
    let json = r#"[{"id":"abc123","short_id":"abc123","time":"2024-01-15T10:30:00Z","hostname":"server1","tags":["daily"],"paths":["/home"]}]"#;
    let list = SnapshotManager::parse_snapshots(json).unwrap();
    assert_eq!(list.snapshots.len(), 1);
    assert_eq!(list.snapshots[0].id, "abc123");
    assert_eq!(list.snapshots[0].hostname.as_deref(), Some("server1"));
    assert_eq!(list.snapshots[0].tags, vec!["daily"]);
}

#[test]
fn test_parse_forget_output_json() {
    let output = r#"[{"tags":null,"host":"h","paths":["/x"],"keep":[],"remove":[{"id":"snap1","short_id":"abc"}],"reasons":[]}]"#;
    assert_eq!(SnapshotManager::parse_forget_output(output).unwrap(), vec!["snap1"]);
}

#[test]
fn test_parse_forget_output_multiple_groups() {
    let output = r#"[
        {"tags":null,"host":"h","paths":["/x"],"keep":[],"remove":[{"id":"snap1","short_id":"abc"}],"reasons":[]},
        {"tags":null,"host":"h","paths":["/y"],"keep":[],"remove":[{"id":"snap2","short_id":"def"},{"id":"snap3","short_id":"ghi"}],"reasons":[]}
    ]"#;
    assert_eq!(SnapshotManager::parse_forget_output(output).unwrap(), vec!["snap1", "snap2", "snap3"]);
}

#[test]
fn test_parse_forget_output_empty_remove_array() {
    let output = r#"[{"tags":null,"host":"h","paths":["/x"],"keep":[{"id":"kept1"}],"remove":[],"reasons":[]}]"#;
    assert!(SnapshotManager::parse_forget_output(output).unwrap().is_empty());
}

#[test]
fn test_parse_forget_output_malformed_json_errors() {
    assert!(SnapshotManager::parse_forget_output("not json").is_err());
}

#[test]
fn test_forget_missing_password() {
    let config = config_with(Some(RetentionPolicy::default()), "nonexistent-key");
    assert!(SnapshotManager::forget_command(&config, "test-job", false).is_err());
}

#[test]
fn test_prune_missing_job() {
    let config = config_with(None, "test-password");
    assert!(SnapshotManager::prune_command(&config, "nonexistent").is_err());
}

#[test]
fn retention_runs_forget_then_prune_only_when_something_was_removed() {
    let config = config_with(Some(RetentionPolicy::default()), "test-password");
    match SnapshotManager::apply_retention(&config, "test-job", false, None).unwrap() {
        RetentionStep::Forget(cmd) => {
            assert_eq!(
                cmd.args,
                vec!["forget", "--json", "--repo", "/tmp/test-repo", "--keep-daily", "7", "--keep-weekly", "4", "--keep-monthly", "6", "--keep-last", "3"]
            );
            assert_eq!(cmd.password, "test-secret");
        }
        _ => panic!("expected Forget"),
    }
    match SnapshotManager::apply_retention(&config, "test-job", false, Some(vec!["a".to_string()])).unwrap() {
        RetentionStep::Prune(cmd, ids) => {
            assert_eq!(cmd.args, vec!["prune", "--repo", "/tmp/test-repo"]);
            assert_eq!(ids, vec!["a"]);
        }
        _ => panic!("expected Prune"),
    }
    assert!(matches!(
        SnapshotManager::apply_retention(&config, "test-job", true, Some(vec!["a".to_string()])).unwrap(),
        RetentionStep::Done(_)
    ));
    assert!(matches!(
        SnapshotManager::apply_retention(&config, "test-job", false, Some(vec![])).unwrap(),
        RetentionStep::Done(_)
    ));
}

#[test]
fn list_result_reads_trimmed_output_or_reports_stderr() {
    let ok = CommandOutput { success: true, code: Some(0), stdout: "  []\n".to_string(), stderr: String::new() };
    assert!(SnapshotManager::list_result(&ok).unwrap().snapshots.is_empty());
    let bad = CommandOutput { success: false, code: Some(1), stdout: String::new(), stderr: "locked".to_string() };
    assert!(SnapshotManager::list_result(&bad).is_err());
}

#[test]
fn snapshots_and_removed_from_json() {
    let snap = JsonValue::Object(vec![
        ("id".to_string(), JsonValue::String("full".to_string())),
        ("tags".to_string(), JsonValue::Array(vec![JsonValue::String("t".to_string()), JsonValue::Null])),
    ]);
    let list = SnapshotManager::snapshots_from_json(&vec![snap]);
    assert_eq!(list.snapshots[0].id, "full");
    assert_eq!(list.snapshots[0].short_id, "");
    assert_eq!(list.snapshots[0].tags, vec!["t"]);
    assert_eq!(list.snapshots[0].hostname, None);
    let group = JsonValue::Object(vec![(
        "remove".to_string(),
        JsonValue::Array(vec![
            JsonValue::Object(vec![("id".to_string(), JsonValue::String("r1".to_string()))]),
            JsonValue::Object(vec![]),
        ]),
    )]);
    assert_eq!(SnapshotManager::removed_from_json(&vec![group, JsonValue::Null]), vec!["r1"]);
}
