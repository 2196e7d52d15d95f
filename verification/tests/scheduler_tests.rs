use restic_manager::backup::BackupResult;
use restic_manager::config::{Config, Job, Repository, ResolvedConfig};
use restic_manager::errors::AppError;
use restic_manager::names::{NameMap, NameSet};
use restic_manager::scheduler::{CronSchedule, JobNotice, JobOutcome, Scheduler, WallClock};
use restic_manager::secrets::Secrets;

fn at(year: i32, month: u32, day: u32, hour: u32, minute: u32) -> WallClock {
    WallClock { year, month, day, hour, minute, second: 0, offset_secs: 0 }
}

fn test_config(schedule: Option<&str>) -> ResolvedConfig {
    let mut repositories = NameMap::new();
    repositories.insert(
        "test".to_string(),
        Repository {
            repo: "/tmp/test-repo".to_string(),
            password_key: "test-password".to_string(),
            log_cli_output: None,
        },
    );
    let mut jobs = NameMap::new();
    jobs.insert(
        "test-job".to_string(),
        Job {
            repository: "test".to_string(),
            paths: vec!["/tmp".to_string()],
            schedule: schedule.map(|s| s.to_string()),
            ..Default::default()
        },
    );
    let mut values = NameMap::new();
    values.insert("test-password".to_string(), "test-secret".to_string());
    ResolvedConfig { config: Config { repositories, jobs }, secrets: Secrets { values, telegram: None } }
}

fn result(partial: bool, errors_count: u64, snapshot: Option<&str>) -> BackupResult {
    BackupResult {
        job_name: "test-job".to_string(),
        snapshot_id: snapshot.map(|s| s.to_string()),
        files_new: 0,
        files_changed: 0,
        files_unmodified: 0,
        dirs_new: 0,
        dirs_changed: 0,
        dirs_unmodified: 0,
        data_blobs: 0,
        tree_blobs: 0,
        data_added: 0,
        partial,
        errors_count,
    }
}

#[test]
fn test_parse_cron_5_fields() {
    let scheduler = Scheduler::new(test_config(Some("0 2 * * *"))).unwrap();
    let jobs = scheduler.list_scheduled_jobs();
    assert_eq!(jobs.len(), 1);
    assert_eq!(jobs[0].0, "test-job");
}

#[test]
fn test_parse_cron_6_fields() {
    let scheduler = Scheduler::new(test_config(Some("0 0 * * * *"))).unwrap();
    let jobs = scheduler.list_scheduled_jobs();
    assert_eq!(jobs.len(), 1);
}

#[test]
fn test_parse_cron_invalid() {
    let result = Scheduler::parse_cron("invalid");
    assert!(result.is_err());
    match result {
        Err(AppError::Other(m)) => assert!(m.starts_with("Invalid cron expression: ")),
        _ => panic!("expected Other"),
    }
}

#[test]
fn parse_cron_normalizes_to_six_fields() {
    let schedule = Scheduler::parse_cron("0 2 * * *").unwrap();
    assert_eq!(schedule.expression(), "0 0 2 * * *");
}

#[test]
fn new_fails_on_an_invalid_schedule() {
    assert!(Scheduler::new(test_config(Some("every day"))).is_err());
}

#[test]
fn test_mark_if_due_fires_on_matching_day() {
    let schedule = Scheduler::parse_cron("0 2 * * 1").unwrap();
    let sunday_2am = at(2026, 1, 4, 2, 0);
    let mut last_triggered = NameMap::new();
    assert!(Scheduler::mark_if_due(&schedule, &sunday_2am, &mut last_triggered, "job"));
}

#[test]
fn test_mark_if_due_skips_wrong_day() {
    let schedule = Scheduler::parse_cron("0 2 * * 1").unwrap();
    let monday_2am = at(2026, 1, 5, 2, 0);
    let mut last_triggered = NameMap::new();
    assert!(!Scheduler::mark_if_due(&schedule, &monday_2am, &mut last_triggered, "job"));
}

#[test]
fn test_mark_if_due_skips_duplicate_minute() {
    let schedule = Scheduler::parse_cron("* * * * *").unwrap();
    let now = at(2026, 1, 5, 2, 0);
    let mut last_triggered = NameMap::new();
    assert!(Scheduler::mark_if_due(&schedule, &now, &mut last_triggered, "job"));
    assert!(!Scheduler::mark_if_due(&schedule, &now, &mut last_triggered, "job"));
}

#[test]
fn test_mark_if_due_fires_again_next_minute() {
    let schedule = Scheduler::parse_cron("* * * * *").unwrap();
    let minute_one = at(2026, 1, 5, 2, 0);
    let minute_two = at(2026, 1, 5, 2, 1);
    let mut last_triggered = NameMap::new();
    assert!(Scheduler::mark_if_due(&schedule, &minute_one, &mut last_triggered, "job"));
    assert_eq!(last_triggered.get("job"), Some(&minute_one));
    assert!(Scheduler::mark_if_due(&schedule, &minute_two, &mut last_triggered, "job"));
}

#[test]
fn test_mark_if_due_tracks_jobs_independently() {
    let schedule = Scheduler::parse_cron("* * * * *").unwrap();
    let now = at(2026, 1, 5, 2, 0);
    let mut last_triggered = NameMap::new();
    assert!(Scheduler::mark_if_due(&schedule, &now, &mut last_triggered, "job-a"));
    assert!(Scheduler::mark_if_due(&schedule, &now, &mut last_triggered, "job-b"));
}

#[test]
fn record_trigger_without_schedule_match_leaves_record_alone() {
    let now = at(2026, 1, 5, 2, 0);
    let mut last_triggered = NameMap::new();
    assert!(!Scheduler::record_trigger(false, &now, &mut last_triggered, "job"));
    assert!(last_triggered.is_empty());
    assert!(Scheduler::record_trigger(true, &now, &mut last_triggered, "job"));
    assert!(!Scheduler::record_trigger(true, &now, &mut last_triggered, "job"));
}

#[test]
fn test_try_start_prevents_concurrent_same_job() {
    let mut in_flight = NameSet::new();
    assert!(Scheduler::try_start(&mut in_flight, "job"));
    assert!(!Scheduler::try_start(&mut in_flight, "job"));
}

#[test]
fn test_try_start_allows_different_jobs_concurrently() {
    let mut in_flight = NameSet::new();
    assert!(Scheduler::try_start(&mut in_flight, "job-a"));
    assert!(Scheduler::try_start(&mut in_flight, "job-b"));
}

#[test]
fn test_try_start_allows_rerun_after_release() {
    let mut in_flight = NameSet::new();
    assert!(Scheduler::try_start(&mut in_flight, "job"));
    Scheduler::release(&mut in_flight, "job");
    assert!(Scheduler::try_start(&mut in_flight, "job"));
}

#[test]
fn test_in_flight_guard_removes_on_normal_drop() {
    let mut in_flight = NameSet::new();
    assert!(Scheduler::try_start(&mut in_flight, "job"));
    Scheduler::release(&mut in_flight, "job");
    assert!(!in_flight.contains("job"));
}

#[test]
fn test_no_scheduled_jobs() {
    let scheduler = Scheduler::new(test_config(None)).unwrap();
    let jobs = scheduler.list_scheduled_jobs();
    assert!(jobs.is_empty());
    assert_eq!(scheduler.scheduled_count(), 0);
}

#[test]
fn a_tick_dispatches_each_due_job_once_per_minute() {
    let scheduler = Scheduler::new(test_config(Some("* * * * *"))).unwrap();
    let now = at(2026, 1, 5, 2, 0);
    let mut last = NameMap::new();
    assert_eq!(scheduler.due_jobs(&now, &mut last), vec!["test-job"]);
    assert!(scheduler.due_jobs(&now, &mut last).is_empty());
    assert_eq!(scheduler.due_jobs(&at(2026, 1, 5, 2, 1), &mut last), vec!["test-job"]);
}

#[test]
fn a_tick_skips_jobs_not_due() {
    let scheduler = Scheduler::new(test_config(Some("0 2 * * *"))).unwrap();
    let mut last = NameMap::new();
    assert!(scheduler.due_jobs(&at(2026, 1, 5, 3, 0), &mut last).is_empty());
    assert_eq!(scheduler.due_jobs(&at(2026, 1, 5, 2, 0), &mut last), vec!["test-job"]);
}

#[test]
fn notices_for_each_outcome() {
    assert_eq!(
        Scheduler::job_notice(JobOutcome::Completed(result(true, 2, Some("s1")))),
        JobNotice::Partial { snapshot_id: Some("s1".to_string()), detail: "2 file(s) could not be read".to_string() }
    );
    assert_eq!(
        Scheduler::job_notice(JobOutcome::Completed(result(true, 0, None))),
        JobNotice::Partial { snapshot_id: None, detail: "some files could not be read".to_string() }
    );
    assert_eq!(
        Scheduler::job_notice(JobOutcome::Completed(result(false, 0, Some("s2")))),
        JobNotice::Success { snapshot_id: Some("s2".to_string()) }
    );
    assert_eq!(
        Scheduler::job_notice(JobOutcome::Failed("Restic error: Repository locked".to_string())),
        JobNotice::Failure { error: "Restic error: Repository locked".to_string() }
    );
    assert_eq!(
        Scheduler::job_notice(JobOutcome::Panicked("boom".to_string())),
        JobNotice::Failure { error: "Backup task panicked: boom".to_string() }
    );
}

#[test]
fn wall_clock_validity() {
    assert!(at(2024, 2, 29, 23, 59).is_valid());
    assert!(!at(2023, 2, 29, 0, 0).is_valid());
    assert!(!at(2026, 4, 31, 0, 0).is_valid());
    assert!(!at(2026, 1, 1, 24, 0).is_valid());
}

#[test]
fn next_run_text_defaults_to_empty() {
    assert_eq!(CronSchedule::next_run_or_empty(None), "");
    assert_eq!(
        CronSchedule::next_run_or_empty(Some("2026-01-05T02:00:00+00:00".to_string())),
        "2026-01-05T02:00:00+00:00"
    );
}
