use restic_manager::json::JsonValue;
use restic_manager::config::{Config, Job, Repository as RepoConfig, ResolvedConfig};
use restic_manager::errors::{AppError, ResticError};
use restic_manager::names::NameMap;
use restic_manager::repository::{Maintenance, Repository};
use restic_manager::restic::CommandOutput;
use restic_manager::restore::{Restore, RestoreStep};
use restic_manager::secrets::Secrets;

fn test_config(password_key: &str) -> ResolvedConfig {
    let mut repositories = NameMap::new();
    repositories.insert(
        "test".to_string(),
        RepoConfig { repo: "/tmp/test-repo".to_string(), password_key: password_key.to_string(), log_cli_output: None },
    );
    let mut jobs = NameMap::new();
    jobs.insert(
        "test-job".to_string(),
        Job { repository: "test".to_string(), paths: vec!["/tmp".to_string()], ..Default::default() },
    );
    let mut values = NameMap::new();
    values.insert("test-password".to_string(), "test-secret".to_string());
    ResolvedConfig { config: Config { repositories, jobs }, secrets: Secrets { values, telegram: None } }
}

fn output(success: bool, stdout: &str, stderr: &str) -> CommandOutput {
    CommandOutput { success, code: Some(if success { 0 } else { 1 }), stdout: stdout.to_string(), stderr: stderr.to_string() }
}

#[test]
fn restore_test_missing_job() {
    let resolved = test_config("test-password");
    let result = Restore::restore_latest(&resolved, "nonexistent", "/tmp", None);
    assert!(result.is_err());
}

#[test]
fn test_restore_snapshot_missing_job() {
    let resolved = test_config("test-password");
    let result = Restore::restore_snapshot(&resolved, "nonexistent", "snap123", "/tmp");
    assert!(result.is_err());
}

#[test]
fn test_find_latest_snapshot_empty() {
    let result = Restore::latest_result(&output(true, "[]", ""));
    match result {
        Err(AppError::Other(m)) => assert_eq!(m, "No snapshots found"),
        _ => panic!("expected no snapshots"),
    }
}

#[test]
fn test_find_latest_snapshot_invalid_json() {
    let result = Restore::latest_result(&output(true, "not json", ""));
    match result {
        Err(AppError::Other(m)) => assert!(m.starts_with("Failed to parse snapshots JSON: ")),
        _ => panic!("expected a parse error"),
    }
    let failed = Restore::latest_result(&output(false, "", "repository does not exist"));
    assert!(matches!(failed, Err(AppError::Restic(ResticError::CommandFailed(_)))));
}

#[test]
fn restore_latest_finds_then_restores() {
    let resolved = test_config("test-password");
    match Restore::restore_latest(&resolved, "test-job", "/srv/out", None).unwrap() {
        RestoreStep::FindLatest(cmd) => {
            assert_eq!(cmd.args, vec!["snapshots", "--json", "--latest", "1", "--repo", "/tmp/test-repo"]);
            assert_eq!(cmd.password, "test-secret");
        }
        _ => panic!("expected FindLatest"),
    }
    let found = output(true, " [{\"id\":\"abc\",\"short_id\":\"a\"}]\n", "");
    match Restore::restore_latest(&resolved, "test-job", "/srv/out", Some(&found)).unwrap() {
        RestoreStep::Restore(cmd, id) => {
            assert_eq!(id, "abc");
            assert_eq!(cmd.args, vec!["restore", "--repo", "/tmp/test-repo", "--target", "/srv/out", "abc"]);
        }
        _ => panic!("expected Restore"),
    }
}

#[test]
fn test_repository_lookup() {
    let resolved = test_config("test-password");
    let repo = resolved.config.get_repository("test");
    assert!(repo.is_some());
    assert_eq!(repo.unwrap().repo, "/tmp/test-repo");
}

#[test]
fn test_password_resolution() {
    let resolved = test_config("test-password");
    assert_eq!(resolved.get_repo_password("test"), Some("test-secret"));
}

#[test]
fn repository_test_missing_repository() {
    let resolved = test_config("test-password");
    assert!(Repository::init(&resolved, "nonexistent").is_err());
}

#[test]
fn test_missing_password_key() {
    let resolved = test_config("nonexistent-key");
    assert!(Repository::init(&resolved, "test").is_err());
}

#[test]
fn maintenance_commands_and_reports() {
    let resolved = test_config("test-password");
    assert_eq!(Repository::init(&resolved, "test").unwrap().args, vec!["init", "--repo", "/tmp/test-repo"]);
    assert_eq!(Repository::check(&resolved, "test").unwrap().args, vec!["check", "--repo", "/tmp/test-repo"]);
    assert_eq!(
        Repository::unlock(&resolved, "test").unwrap().args,
        vec!["unlock", "--repo", "/tmp/test-repo", "--remove-all"]
    );
    assert_eq!(
        Repository::outcome(Maintenance::Init, "test", "/tmp/test-repo", &output(true, "", "")).unwrap(),
        "Repository 'test' initialized successfully\n  Path: /tmp/test-repo"
    );
    assert_eq!(
        Repository::outcome(Maintenance::Check, "test", "/tmp/test-repo", &output(true, "", "")).unwrap(),
        "Repository 'test' check passed"
    );
    assert!(Repository::outcome(Maintenance::Unlock, "test", "/x", &output(false, "", "locked")).is_err());
}

#[test]
fn latest_from_json_takes_first_id() {
    let first = JsonValue::Object(vec![("id".to_string(), JsonValue::String("one".to_string()))]);
    let second = JsonValue::Object(vec![("id".to_string(), JsonValue::String("two".to_string()))]);
    assert_eq!(Restore::latest_from_json(&vec![first, second]).unwrap(), "one");
    assert!(Restore::latest_from_json(&vec![JsonValue::Null]).is_err());
    assert!(Restore::latest_from_json(&vec![]).is_err());
}
