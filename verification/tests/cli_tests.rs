use restic_manager::cli::{Cli, CliErrorKind, Commands, ShowKind};

fn args(v: &[&str]) -> Vec<String> {
    v.iter().map(|s| s.to_string()).collect()
}

#[test]
fn jobs_format_json_parses() {
    let cli = Cli::try_parse_from(&args(&["restic-manager", "jobs", "--format", "json"]))
        .expect("parse should succeed");
    match cli.command {
        Commands::Jobs { format } => assert_eq!(format.as_deref(), Some("json")),
        _ => panic!("expected Jobs variant"),
    }
}

#[test]
fn repos_format_json_parses() {
    let cli = Cli::try_parse_from(&args(&["restic-manager", "repos", "--format", "json"]))
        .expect("parse should succeed");
    match cli.command {
        Commands::Repos { format } => assert_eq!(format.as_deref(), Some("json")),
        _ => panic!("expected Repos variant"),
    }
}

#[test]
fn list_format_json_parses() {
    let cli = Cli::try_parse_from(&args(&["restic-manager", "list", "documents", "--format", "json"]))
        .expect("parse should succeed");
    match cli.command {
        Commands::List { name, format } => {
            assert_eq!(name, "documents");
            assert_eq!(format.as_deref(), Some("json"));
        }
        _ => panic!("expected List variant"),
    }
}

#[test]
fn jobs_format_yaml_rejected() {
    assert!(Cli::try_parse_from(&args(&["restic-manager", "jobs", "--format", "yaml"])).is_err());
}

#[test]
fn repos_format_yaml_rejected() {
    assert!(Cli::try_parse_from(&args(&["restic-manager", "repos", "--format", "yaml"])).is_err());
}

#[test]
fn list_format_yaml_rejected() {
    assert!(
        Cli::try_parse_from(&args(&["restic-manager", "list", "documents", "--format", "yaml"]))
            .is_err()
    );
}

#[test]
fn show_job_json_parses() {
    let cli = Cli::try_parse_from(&args(&[
        "restic-manager",
        "show",
        "job",
        "documents",
        "--format",
        "json",
    ]))
    .expect("parse should succeed");
    match cli.command {
        Commands::Show { kind, name, format } => {
            assert_eq!(kind, ShowKind::Job);
            assert_eq!(name, "documents");
            assert_eq!(format.as_deref(), Some("json"));
        }
        _ => panic!("expected Show variant"),
    }
}

#[test]
fn show_repo_json_parses() {
    let cli = Cli::try_parse_from(&args(&[
        "restic-manager",
        "show",
        "repo",
        "local",
        "--format",
        "json",
    ]))
    .expect("parse should succeed");
    match cli.command {
        Commands::Show { kind, name, format } => {
            assert_eq!(kind, ShowKind::Repo);
            assert_eq!(name, "local");
            assert_eq!(format.as_deref(), Some("json"));
        }
        _ => panic!("expected Show variant"),
    }
}

#[test]
fn show_job_yaml_rejected() {
    assert!(Cli::try_parse_from(&args(&[
        "restic-manager",
        "show",
        "job",
        "documents",
        "--format",
        "yaml"
    ]))
    .is_err());
}

#[test]
fn show_repo_yaml_rejected() {
    assert!(Cli::try_parse_from(&args(&[
        "restic-manager",
        "show",
        "repo",
        "local",
        "--format",
        "yaml"
    ]))
    .is_err());
}

#[test]
fn run_with_dry_run_flag_in_any_position() {
    for v in [&["restic-manager", "run", "--dry-run", "home"][..], &["restic-manager", "run", "home", "--dry-run"][..]] {
        match Cli::try_parse_from(&args(v)).unwrap().command {
            Commands::Run { name, dry_run } => {
                assert_eq!(name, "home");
                assert!(dry_run);
            }
            _ => panic!("expected Run"),
        }
    }
    match Cli::try_parse_from(&args(&["restic-manager", "run", "home"])).unwrap().command {
        Commands::Run { dry_run, .. } => assert!(!dry_run),
        _ => panic!("expected Run"),
    }
}

#[test]
fn restore_requires_target_and_accepts_inline_values() {
    let e = Cli::try_parse_from(&args(&["restic-manager", "restore", "home"])).unwrap_err();
    assert_eq!(e.kind, CliErrorKind::MissingArgument);
    assert_eq!(e.arg, "--target <TARGET>");
    assert_eq!(
        e.message(),
        "error: the following required arguments were not provided:\n  --target <TARGET>\n\nUsage: restic-manager restore --target <TARGET> <NAME>\n\nFor more information, try '--help'.\n"
    );
    match Cli::try_parse_from(&args(&["restic-manager", "restore", "home", "--target=/tmp/r", "--snapshot", "abc"]))
        .unwrap()
        .command
    {
        Commands::Restore { name, snapshot, target } => {
            assert_eq!(name, "home");
            assert_eq!(snapshot.as_deref(), Some("abc"));
            assert_eq!(target, "/tmp/r");
        }
        _ => panic!("expected Restore"),
    }
}

#[test]
fn parse_errors_name_the_problem() {
    let e = Cli::try_parse_from(&args(&["restic-manager"])).unwrap_err();
    assert_eq!(e.kind, CliErrorKind::MissingSubcommand);
    let e = Cli::try_parse_from(&args(&["restic-manager", "bogus"])).unwrap_err();
    assert_eq!(e.kind, CliErrorKind::UnknownSubcommand);
    assert_eq!(
        e.message(),
        "error: unrecognized subcommand 'bogus'\n\nUsage: restic-manager <COMMAND>\n\nFor more information, try '--help'.\n"
    );
    let e = Cli::try_parse_from(&args(&["restic-manager", "jobs", "--format", "json", "--format", "json"])).unwrap_err();
    assert_eq!(e.kind, CliErrorKind::DuplicateOption);
    let e = Cli::try_parse_from(&args(&["restic-manager", "jobs", "--format"])).unwrap_err();
    assert_eq!(e.kind, CliErrorKind::MissingValue);
    let e = Cli::try_parse_from(&args(&["restic-manager", "prune"])).unwrap_err();
    assert_eq!(e.kind, CliErrorKind::MissingArgument);
    assert_eq!(e.arg, "<NAME>");
    let e = Cli::try_parse_from(&args(&["restic-manager", "prune", "a", "b"])).unwrap_err();
    assert_eq!(e.kind, CliErrorKind::UnexpectedArgument);
    assert_eq!(e.arg, "b");
    let e = Cli::try_parse_from(&args(&["restic-manager", "show", "host", "x"])).unwrap_err();
    assert_eq!(e.kind, CliErrorKind::InvalidValue);
    assert_eq!(
        e.message(),
        "error: invalid value 'host' for '<KIND>'\n  [possible values: job, repo]\n\nFor more information, try '--help'.\n"
    );
    let e = Cli::try_parse_from(&args(&["restic-manager", "daemon", "--verbose"])).unwrap_err();
    assert_eq!(e.kind, CliErrorKind::UnknownArgument);
    let e = Cli::try_parse_from(&args(&["restic-manager", "--help"])).unwrap_err();
    assert!(e.is_help());
}

#[test]
fn double_dash_makes_the_rest_positional() {
    match Cli::try_parse_from(&args(&["restic-manager", "check", "--", "--odd-name"])).unwrap().command {
        Commands::Check { name } => assert_eq!(name, "--odd-name"),
        _ => panic!("expected Check"),
    }
}

#[test]
fn subcommands_without_arguments_parse() {
    assert!(matches!(Cli::try_parse_from(&args(&["x", "daemon"])).unwrap().command, Commands::Daemon));
    assert!(matches!(Cli::try_parse_from(&args(&["x", "tui"])).unwrap().command, Commands::Tui));
    assert!(matches!(Cli::try_parse_from(&args(&["x", "init-exclude"])).unwrap().command, Commands::InitExclude));
    assert!(matches!(Cli::try_parse_from(&args(&["x", "jobs"])).unwrap().command, Commands::Jobs { format: None }));
}
