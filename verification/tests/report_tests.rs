use restic_manager::backup::BackupResult;
use restic_manager::config::{Job, Repository, RetentionPolicy};
use restic_manager::report::{
    job_show_report, mask_password_key, name_list_json, name_list_report, prune_report, repo_show_report, restore_report, run_report,
    snapshot_list_report,
};
use restic_manager::snapshot::{Snapshot, SnapshotList};

fn result(partial: bool) -> BackupResult {
    BackupResult {
        job_name: String::new(),
        snapshot_id: Some("abc".to_string()),
        files_new: 1,
        files_changed: 2,
        files_unmodified: 3,
        dirs_new: 0,
        dirs_changed: 0,
        dirs_unmodified: 0,
        data_blobs: 0,
        tree_blobs: 0,
        data_added: 0,
        partial,
        errors_count: 4,
    }
}

#[test]
fn run_reports() {
    assert_eq!(
        run_report(&result(false)),
        vec!["Backup completed: 1 new, 2 changed, 3 unchanged files", "Snapshot ID: abc"]
    );
    assert_eq!(
        run_report(&result(true))[0],
        "Backup completed with errors (partial): 1 new, 2 changed, 3 unchanged files. 4 file(s) could not be read."
    );
}

#[test]
fn restore_and_prune_reports() {
    assert_eq!(restore_report("abc", "/tmp/x", false), "Restored snapshot abc to /tmp/x");
    assert_eq!(restore_report("abc", "/tmp/x", true), "Restored latest snapshot abc to /tmp/x");
    assert_eq!(prune_report("docs", 12), "Retention applied for job 'docs': removed 12 snapshot(s)");
}

#[test]
fn listing_reports() {
    let a = "alpha".to_string();
    let b = "beta".to_string();
    assert_eq!(name_list_report("Configured jobs:", &vec![&a, &b]), vec!["Configured jobs:", "  - alpha", "  - beta"]);
    let list = SnapshotList {
        snapshots: vec![Snapshot {
            id: "abcdef".to_string(),
            time: "2024-01-15T10:30:00Z".to_string(),
            hostname: None,
            tags: vec![],
            paths: vec!["/home".to_string(), "/etc".to_string()],
            short_id: "abc".to_string(),
        }],
    };
    assert_eq!(
        snapshot_list_report("docs", &list),
        vec!["Snapshots for job 'docs':", "  abc  2024-01-15T10:30:00Z  [\"/home\", \"/etc\"]"]
    );
}

#[test]
fn show_reports() {
    let job = Job {
        repository: "local".to_string(),
        paths: vec!["/home".to_string()],
        schedule: Some("0 2 * * *".to_string()),
        retention: Some(RetentionPolicy { keep_daily: Some(7), keep_weekly: None, keep_monthly: None, keep_yearly: None, keep_hourly: None, keep_last: Some(3) }),
        ..Default::default()
    };
    assert_eq!(
        job_show_report("docs", &job),
        vec![
            "Job 'docs' details:",
            "  repository: local",
            "  paths: /home",
            "  schedule: 0 2 * * *",
            "  retention:",
            "    keep_last: 3",
            "    keep_daily: 7",
            "  notifications: on_failure=true on_success=false",
            "  hooks: pre_backup=0 post_backup=0",
        ]
    );
    let repo = Repository { repo: "/srv".to_string(), password_key: "ab".to_string(), log_cli_output: Some("/var/log/r.log".to_string()) };
    assert_eq!(
        repo_show_report("local", &repo),
        vec!["Repository 'local' details:", "  repo: /srv", "  password_key: ***", "  log_cli_output: /var/log/r.log"]
    );
}

#[test]
fn password_key_masking() {
    assert_eq!(mask_password_key("abcdef"), "ab***");
    assert_eq!(mask_password_key("ab"), "***");
    assert_eq!(mask_password_key(""), "***");
    assert_eq!(mask_password_key("éx"), "é***");
}

#[test]
fn name_list_json_is_pretty_printed() {
    let a = "daily".to_string();
    let b = "weekly".to_string();
    assert_eq!(name_list_json(&vec![&a, &b]), "[\n  \"daily\",\n  \"weekly\"\n]");
    assert_eq!(name_list_json(&vec![]), "[]");
}
