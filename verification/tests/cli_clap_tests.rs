use clap::builder::PossibleValuesParser;
use clap::error::ErrorKind;
use clap::{Arg, ArgAction, Command};
use restic_manager::cli::Cli;

fn name_arg() -> Arg {
    Arg::new("name").value_name("NAME").required(true).action(ArgAction::Set)
}

fn format_arg() -> Arg {
    Arg::new("format")
        .long("format")
        .value_name("FORMAT")
        .action(ArgAction::Set)
        .help("Output format, only 'json' supported. Defaults to plain text.")
        .value_parser(PossibleValuesParser::new(["json"]))
}

fn command() -> Command {
    Command::new("restic-manager")
        .about("Manage restic backups with scheduling and notifications")
        .long_about(None::<&str>)
        .subcommand_required(true)
        .arg_required_else_help(true)
        .subcommand(Command::new("run").about("Run a backup job").arg(name_arg()).arg(
            Arg::new("dry_run")
                .long("dry-run")
                .action(ArgAction::SetTrue)
                .help("Preview the backup without writing data; also skips pre/post-backup hooks"),
        ))
        .subcommand(
            Command::new("restore")
                .about("Restore from a backup job")
                .arg(name_arg())
                .arg(Arg::new("snapshot").long("snapshot").value_name("SNAPSHOT").action(ArgAction::Set))
                .arg(
                    Arg::new("target")
                        .long("target")
                        .value_name("TARGET")
                        .required(true)
                        .action(ArgAction::Set)
                        .help("Directory to restore into (required, to avoid accidentally overwriting the current directory)"),
                ),
        )
        .subcommand(Command::new("prune").about("Prune old snapshots for a job").arg(name_arg()))
        .subcommand(Command::new("list").about("List snapshots for a job").arg(name_arg()).arg(format_arg()))
        .subcommand(Command::new("check").about("Check repository integrity for a job").arg(name_arg()))
        .subcommand(Command::new("unlock").about("Unlock repository for a job").arg(name_arg()))
        .subcommand(Command::new("daemon").about("Run the scheduler daemon").long_about(
            "Run the scheduler daemon in the foreground. SIGINT (Ctrl-C) or SIGTERM stops scheduling and drains in-flight backups before exiting; a second signal during the drain force-exits immediately (exit code 130). See the README section \"Running as a systemd service\" for production use.",
        ))
        .subcommand(Command::new("jobs").about("List all jobs").arg(format_arg()))
        .subcommand(Command::new("repos").arg(format_arg()))
        .subcommand(Command::new("init").about("Initialize a repository").arg(name_arg()))
        .subcommand(Command::new("init-exclude").about("Initialize or reset the exclude file with defaults"))
        .subcommand(Command::new("tui").about("Open the interactive terminal dashboard"))
        .subcommand(
            Command::new("show")
                .about("Show full details for a job or repository as JSON")
                .arg(
                    Arg::new("kind")
                        .value_name("KIND")
                        .required(true)
                        .action(ArgAction::Set)
                        .value_parser(PossibleValuesParser::new(["job", "repo"])),
                )
                .arg(name_arg())
                .arg(format_arg()),
        )
}

fn similar_hints(typed: &str, hints: &[(String, String)]) -> Vec<usize> {
    let mut found: Vec<(f64, usize)> = Vec::new();
    for (i, (name, _)) in hints.iter().enumerate() {
        let confidence = strsim::jaro(typed, name);
        if confidence > 0.7 {
            let pos = found.iter().position(|(c, _)| *c > confidence).unwrap_or(found.len());
            found.insert(pos, (confidence, i));
        }
    }
    found.into_iter().map(|(_, i)| i).collect()
}

/// Our parse of a command line agrees with clap's on the outcome and, for
/// errors and help, on the text printed.
fn agrees(c: &[&str]) {
    let mut argv: Vec<String> = vec!["restic-manager".to_string()];
    argv.extend(c.iter().map(|s| s.to_string()));
    let ours = Cli::try_parse_from(&argv);
    match command().try_get_matches_from(argv.clone()) {
        Ok(_) => assert!(ours.is_ok(), "clap accepts {:?} but the library refuses it", c),
        Err(e) => match ours {
            Ok(_) => panic!("clap refuses {:?} but the library accepts it", c),
            Err(mine) => {
                let text = if mine.is_help() {
                    mine.message()
                } else {
                    mine.message_with(&similar_hints(&mine.typed(), &mine.hints))
                };
                assert_eq!(text, e.to_string(), "text for {:?}", c);
                assert_eq!(mine.is_help(), e.kind() == ErrorKind::DisplayHelp, "help for {:?}", c);
            }
        },
    }
}

#[test]
fn command_lines_agree_with_clap() {
    let cases: Vec<Vec<&str>> = vec![
        vec![],
        vec!["--help"],
        vec!["-h"],
        vec!["help"],
        vec!["help", "run"],
        vec!["help", "show"],
        vec!["help", "daemon"],
        vec!["help", "nope"],
        vec!["help", "run", "x"],
        vec!["run", "--help"],
        vec!["restore", "--help"],
        vec!["prune", "--help"],
        vec!["list", "--help"],
        vec!["check", "--help"],
        vec!["unlock", "--help"],
        vec!["daemon", "--help"],
        vec!["daemon", "-h"],
        vec!["jobs", "--help"],
        vec!["repos", "--help"],
        vec!["init", "--help"],
        vec!["init-exclude", "--help"],
        vec!["tui", "--help"],
        vec!["show", "--help"],
        vec!["show", "-h"],
        vec!["nope"],
        vec!["rn"],
        vec!["-x"],
        vec!["--foo"],
        vec!["--"],
        vec!["run"],
        vec!["run", "a", "b"],
        vec!["run", "a", "--dry-run", "--dry-run"],
        vec!["run", "a", "--dry-run=x"],
        vec!["run", "a", "-x"],
        vec!["run", "a", "--foo"],
        vec!["restore", "a"],
        vec!["restore"],
        vec!["restore", "a", "--target"],
        vec!["restore", "a", "--target", "t", "--target", "u"],
        vec!["list", "a", "--format", "yaml"],
        vec!["list", "a", "--format"],
        vec!["jobs", "--format", "-x"],
        vec!["jobs", "--format="],
        vec!["show", "job"],
        vec!["show"],
        vec!["show", "jb", "x"],
        vec!["show", "x", "y"],
        vec!["daemon", "x"],
        vec!["jobs", "x"],
        vec!["run", "a", "-h"],
        vec!["list", "a", "--help", "--format", "yaml"],
        vec!["run", "a", "b", "--help"],
        vec!["init-exclude", "--dry-run"],
        vec!["restore", "--target", "t"],
        vec!["run", "-"],
        vec!["run", "a", "-"],
        vec!["run", "--", "-a"],
        vec!["restore", "a", "--snapshot", "s", "--snapshot", "t"],
        vec!["restore", "a", "--target=t", "--snapshot"],
        vec!["list", "a", "--format", "json", "--format", "json"],
        vec!["run", "a", "--help=x"],
        vec!["run", "-hx"],
        vec!["show", "job", "n", "extra"],
        vec!["tui", "-v"],
        vec!["run", "a", "--target", "x"],
        vec!["--", "run"],
        vec!["--", "foo"],
        vec!["help", "help"],
        vec!["help", "--x"],
        vec!["help", "-h"],
        vec!["--help=x"],
        vec!["-hx"],
        vec!["-xh"],
        vec!["restore", "a", "--target="],
        vec!["run", "a", "--dry-run", "--help=x"],
        vec!["run", "a", "--dry-run", "--dry-run=x"],
        vec!["jobs", "--format", "--help"],
        vec!["jobs", "--format", "--"],
        vec!["show", "jb", "--foo"],
        vec!["show", "jb", "-h"],
        vec!["run", "a", "-xh"],
        vec!["jobs", "--format", "json", "-h"],
        vec!["restore", "--snapshot", "s"],
        vec!["list", "--format", "json"],
        vec!["run", "--dry-run"],
        vec!["run", "nightly"],
        vec!["run", "nightly", "--dry-run"],
        vec!["restore", "home", "--target", "/r"],
        vec!["show", "repo", "main", "--format=json"],
        vec!["jobs", "--format", "json"],
        vec!["list", "docs", "--format", "-"],
        vec!["help", "help", "x"],
        vec!["--", "help"],
        vec!["check", "--", "--odd"],
        vec!["show", "job", "-x"],
        vec!["restore", "a", "--snapshot", "--target", "t"],
        vec!["jobs", "--format", "--foo"],
        vec!["init-exclude", "extra"],
        vec!["run", "a", "--dry-run", "--foo"],
        vec!["restore", "--foo"],
        vec!["show", "jb", "--format", "yaml"],
        vec!["show", "jb", "--format=json"],
        vec!["show", "jb", "-x"],
        vec!["show", "jb", "--help=x"],
        vec!["show", "--", "jb"],
        vec!["show", "jb", "--", "x"],
        vec!["show", "jb"],
        vec!["show", "job", "n", "--format", "json", "--format", "json"],
        vec!["list", "a", "--format", "json", "--format", "yaml"],
        vec!["restore", "a", "--target", "--snapshot", "s"],
        vec!["jobs", "--format", "-h"],
        vec!["jobs", "--format", "--help=y"],
        vec!["lst"],
        vec!["run", "a", "--dry"],
        vec!["run", "a", "--dryrun"],
        vec!["list", "a", "--format=jsn"],
        vec!["ini"],
        vec!["inti"],
        vec!["--hep"],
        vec!["run", "a", "--hel"],
        vec!["restore", "a", "--snap"],
        vec!["restore", "a", "--taget", "x"],
        vec!["jobs", "--formt", "json"],
        vec!["show", "jon", "x"],
        vec!["show", "rep", "x"],
        vec!["--", "lst"],
        vec!["help", "lst"],
        vec!["--hlp"],
        vec!["chek", "x"],
        vec!["daemn"],
        vec!["restore", "--snapshot", "s", "--trget"],
        vec!["list", "--foramt"],
        vec!["--dry-run", "run", "a"],
        vec!["--format", "json", "jobs"],
        vec!["--format", "json"],
        vec!["--formt", "list", "x"],
        vec!["--snapshot", "jobs", "restore"],
        vec!["--dry-run", "x"],
        vec!["--targt", "show", "restore", "restore"],
        vec!["--hel", "run"],
    ];
    for c in cases {
        agrees(&c);
    }
}
