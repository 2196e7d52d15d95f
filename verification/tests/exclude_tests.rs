use restic_manager::config::Job;
use restic_manager::exclude::{
    config_dir_in, default_exclude_content, job_excludes_content, job_excludes_path, resolve_exclude_file, ExcludeAnswer,
    ExcludeStep,
};

#[test]
fn test_default_exclude_content_not_empty() {
    assert!(!default_exclude_content().is_empty());
    assert!(default_exclude_content().contains(".cache"));
    assert!(default_exclude_content().contains(".git"));
}

#[test]
fn config_dir_and_job_paths() {
    assert_eq!(config_dir_in("/home/u/.config"), "/home/u/.config/restic-manager");
    assert_eq!(job_excludes_path("/etc/ex.d", "docs"), "/etc/ex.d/docs.txt");
    assert_eq!(job_excludes_content(&vec!["*.tmp".to_string(), "cache/".to_string()]), "*.tmp\ncache/\n");
}

#[test]
fn test_config_dir_returns_path() {
    let result = restic_manager::exclude::config_dir();
    assert!(result.is_ok());
    let path = result.unwrap();
    assert!(path.ends_with("restic-manager"));
}

fn run_resolution(job: &Job, exists: bool, written: Option<&str>, default: Option<&str>) -> (Vec<ExcludeStep>, Option<String>) {
    let mut answers: Vec<ExcludeAnswer> = Vec::new();
    let mut asked: Vec<ExcludeStep> = Vec::new();
    loop {
        let step = resolve_exclude_file(job, &answers);
        match &step {
            ExcludeStep::CheckExists(_) => answers.push(ExcludeAnswer::Exists(exists)),
            ExcludeStep::WriteJobExcludes(_) => answers.push(ExcludeAnswer::Written(written.map(String::from))),
            ExcludeStep::FindDefault => answers.push(ExcludeAnswer::Default(default.map(String::from))),
            ExcludeStep::Done(choice) => return (asked, choice.clone()),
        }
        asked.push(step);
    }
}

#[test]
fn exclude_resolution_prefers_existing_explicit_file() {
    let job = Job {
        exclude_file: Some("/etc/ex.txt".to_string()),
        exclude_patterns: Some(vec!["*.tmp".to_string()]),
        ..Job::default()
    };
    let (asked, choice) = run_resolution(&job, true, Some("/w.txt"), Some("/d.txt"));
    assert_eq!(asked, vec![ExcludeStep::CheckExists("/etc/ex.txt".to_string())]);
    assert_eq!(choice, Some("/etc/ex.txt".to_string()));
}

#[test]
fn exclude_resolution_falls_back_to_written_patterns() {
    let job = Job {
        exclude_file: Some("/etc/missing.txt".to_string()),
        exclude_patterns: Some(vec!["*.tmp".to_string(), "cache/".to_string()]),
        ..Job::default()
    };
    let (asked, choice) = run_resolution(&job, false, Some("/w.txt"), Some("/d.txt"));
    assert_eq!(
        asked,
        vec![
            ExcludeStep::CheckExists("/etc/missing.txt".to_string()),
            ExcludeStep::WriteJobExcludes("*.tmp\ncache/\n".to_string()),
        ]
    );
    assert_eq!(choice, Some("/w.txt".to_string()));
}

#[test]
fn exclude_resolution_falls_back_to_default_then_none() {
    let job = Job { exclude_patterns: Some(vec!["*.tmp".to_string()]), ..Job::default() };
    let (asked, choice) = run_resolution(&job, false, None, Some("/d.txt"));
    assert_eq!(asked.len(), 2);
    assert_eq!(asked[1], ExcludeStep::FindDefault);
    assert_eq!(choice, Some("/d.txt".to_string()));
    let bare = Job { exclude_patterns: Some(vec![]), ..Job::default() };
    let (asked, choice) = run_resolution(&bare, false, None, None);
    assert_eq!(asked, vec![ExcludeStep::FindDefault]);
    assert_eq!(choice, None);
}
