use restic_manager::config::{normalize_cron, Config, Job, NotificationConfig, Repository, ResolvedConfig, RetentionPolicy};
use restic_manager::errors::{AppError, ConfigError};
use restic_manager::names::NameMap;
use restic_manager::secrets::Secrets;

fn test_config() -> ResolvedConfig {
    let mut repositories = NameMap::new();
    repositories.insert(
        "test-repo".to_string(),
        Repository {
            repo: "/tmp/test-repo".to_string(),
            password_key: "test-password".to_string(),
            log_cli_output: None,
        },
    );
    let mut jobs = NameMap::new();
    jobs.insert(
        "test-job".to_string(),
        Job { repository: "test-repo".to_string(), paths: vec!["/tmp".to_string()], ..Default::default() },
    );
    let mut values = NameMap::new();
    values.insert("test-password".to_string(), "test-secret".to_string());
    ResolvedConfig { config: Config { repositories, jobs }, secrets: Secrets { values, telegram: None } }
}

fn one_job_config(repo: &str, password_key: &str, job: Job) -> Config {
    let mut repositories = NameMap::new();
    repositories.insert(
        "test".to_string(),
        Repository { repo: repo.to_string(), password_key: password_key.to_string(), log_cli_output: None },
    );
    let mut jobs = NameMap::new();
    jobs.insert("job".to_string(), job);
    Config { repositories, jobs }
}

fn job(repository: &str, paths: &[&str], schedule: Option<&str>) -> Job {
    Job {
        repository: repository.to_string(),
        paths: paths.iter().map(|p| p.to_string()).collect(),
        schedule: schedule.map(|s| s.to_string()),
        ..Default::default()
    }
}

fn invalid_message(r: Result<(), ConfigError>) -> String {
    match r {
        Err(ConfigError::Invalid(m)) => m,
        other => panic!("expected Invalid, got {:?}", other),
    }
}

#[test]
fn test_resolve_job_returns_job_repo_and_password() {
    let config = test_config();
    let (job, repo, password) = config.resolve_job("test-job").unwrap();
    assert_eq!(job.repository, "test-repo");
    assert_eq!(repo.repo, "/tmp/test-repo");
    assert_eq!(password, "test-secret");
}

#[test]
fn test_resolve_job_errors_for_missing_job() {
    let config = test_config();
    assert!(config.resolve_job("nonexistent").is_err());
}

#[test]
fn test_resolve_job_errors_for_missing_repository() {
    let mut config = test_config();
    let mut j = config.config.jobs.remove("test-job").unwrap();
    j.repository = "nonexistent-repo".to_string();
    config.config.jobs.insert("test-job".to_string(), j);
    match config.resolve_job("test-job") {
        Err(AppError::Other(m)) => assert_eq!(m, "Repository 'nonexistent-repo' not found"),
        _ => panic!("expected a missing repository"),
    }
}

#[test]
fn test_resolve_job_errors_for_missing_password() {
    let mut config = test_config();
    config.secrets.values.clear();
    match config.resolve_job("test-job") {
        Err(AppError::Other(m)) => assert_eq!(m, "No password found for repository 'test-repo'"),
        _ => panic!("expected a missing password"),
    }
}

#[test]
fn test_resolve_repo_returns_repo_and_password() {
    let config = test_config();
    let (repo, password) = config.resolve_repo("test-repo").unwrap();
    assert_eq!(repo.repo, "/tmp/test-repo");
    assert_eq!(password, "test-secret");
}

#[test]
fn test_resolve_repo_errors_for_missing_repository() {
    let config = test_config();
    assert!(config.resolve_repo("nonexistent").is_err());
}

#[test]
fn test_resolve_repo_errors_for_missing_password() {
    let mut config = test_config();
    config.secrets.values.clear();
    assert!(config.resolve_repo("test-repo").is_err());
}

#[test]
fn test_repository_validation_rejects_empty_repo_path() {
    let mut repositories = NameMap::new();
    repositories.insert(
        "bad".to_string(),
        Repository { repo: "".to_string(), password_key: "pass".to_string(), log_cli_output: None },
    );
    let config = Config { repositories, jobs: NameMap::new() };
    assert_eq!(invalid_message(config.validate()), "Repository 'bad' has an empty repo path");
}

#[test]
fn test_repository_validation_rejects_empty_password_key() {
    let mut repositories = NameMap::new();
    repositories.insert(
        "bad".to_string(),
        Repository { repo: "/tmp/repo".to_string(), password_key: "".to_string(), log_cli_output: None },
    );
    let config = Config { repositories, jobs: NameMap::new() };
    assert!(config.validate().is_err());
}

#[test]
fn test_job_validation_rejects_empty_repository() {
    let config = one_job_config("/tmp/repo", "pass", job("", &["/home"], None));
    assert!(config.validate().is_err());
}

#[test]
fn test_job_validation_rejects_no_paths() {
    let config = one_job_config("/tmp/repo", "pass", job("test", &[], None));
    assert_eq!(invalid_message(config.validate()), "Job 'job' has no backup paths");
}

#[test]
fn test_job_validation_rejects_invalid_cron() {
    let config = one_job_config("/tmp/repo", "pass", job("test", &["/home"], Some("not a cron")));
    let m = invalid_message(config.validate());
    assert!(m.starts_with("Job 'job' has an invalid schedule 'not a cron': "));
}

#[test]
fn test_job_validation_accepts_valid_5_field_cron() {
    let config = one_job_config("/tmp/repo", "pass", job("test", &["/home"], Some("0 2 * * *")));
    assert!(config.validate().is_ok());
}

#[test]
fn test_job_validation_accepts_valid_6_field_cron() {
    let config = one_job_config("/tmp/repo", "pass", job("test", &["/home"], Some("0 0 2 * * *")));
    assert!(config.validate().is_ok());
}

#[test]
fn test_job_validation_rejects_invalid_6_field_cron() {
    let config = one_job_config("/tmp/repo", "pass", job("test", &["/home"], Some("not a cron")));
    assert!(config.validate().is_err());
}

#[test]
fn test_config_validate_job_refs_nonexistent_repo() {
    let config = one_job_config("/srv/backup1", "pass1", job("nonexistent", &["/home"], None));
    assert_eq!(
        invalid_message(config.validate()),
        "Job 'job' references non-existent repository 'nonexistent'"
    );
}

#[test]
fn test_resolved_config_validation_rejects_missing_password_secret() {
    let mut repositories = NameMap::new();
    repositories.insert(
        "test-repo".to_string(),
        Repository {
            repo: "/tmp/test-repo".to_string(),
            password_key: "missing-secret".to_string(),
            log_cli_output: None,
        },
    );
    let mut jobs = NameMap::new();
    jobs.insert(
        "test-job".to_string(),
        Job { repository: "test-repo".to_string(), paths: vec!["/tmp".to_string()], ..Default::default() },
    );
    let resolved = ResolvedConfig { config: Config { repositories, jobs }, secrets: Secrets::default() };
    assert!(resolved.validate_secrets().is_err());
}

#[test]
fn load_accepts_valid_config_and_resolves_every_job() {
    let rc = test_config();
    let loaded = ResolvedConfig::load(rc.config, Some(rc.secrets)).unwrap();
    for name in loaded.config.list_jobs() {
        assert!(loaded.resolve_job(name).is_ok());
    }
}

#[test]
fn load_without_secrets_rejects_password_keys() {
    let rc = test_config();
    match ResolvedConfig::load(rc.config, None) {
        Err(AppError::Config(ConfigError::Invalid(m))) => {
            assert_eq!(m, "Repository 'test-repo' references missing secret key 'test-password'")
        }
        _ => panic!("expected a missing secret"),
    }
}

#[test]
fn test_config_empty() {
    let config = Config::default();
    assert!(config.repositories.is_empty());
    assert!(config.jobs.is_empty());
    assert!(config.validate().is_ok());
}

#[test]
fn test_notification_config_defaults() {
    let n = NotificationConfig::default();
    assert!(n.on_failure);
    assert!(!n.on_success);
}

#[test]
fn retention_policy_defaults() {
    let r = RetentionPolicy::default();
    assert_eq!(r.keep_daily, Some(7));
    assert_eq!(r.keep_weekly, Some(4));
    assert_eq!(r.keep_monthly, Some(6));
    assert_eq!(r.keep_last, Some(3));
    assert_eq!(r.keep_yearly, None);
}

#[test]
fn normalize_cron_adds_seconds_to_five_fields() {
    assert_eq!(normalize_cron("0 2 * * *"), "0 0 2 * * *");
    assert_eq!(normalize_cron("0 0 2 * * *"), "0 0 2 * * *");
    assert_eq!(normalize_cron("  */5   *  * * * "), "0   */5   *  * * * ");
    let once = normalize_cron("15 3 * * 1-5");
    assert_eq!(normalize_cron(&once), once);
}

#[test]
fn list_jobs_and_repositories() {
    let config = test_config();
    assert_eq!(config.config.list_jobs(), vec!["test-job"]);
    assert_eq!(config.config.list_repositories(), vec!["test-repo"]);
}

#[test]
fn schedule_verdict_quotes_cron_message() {
    assert!(Job::schedule_verdict("0 2 * * *", "docs", Ok(())).is_ok());
    assert_eq!(
        invalid_message(Job::schedule_verdict("bad", "docs", Err("oops".to_string()))),
        "Job 'docs' has an invalid schedule 'bad': oops"
    );
}
