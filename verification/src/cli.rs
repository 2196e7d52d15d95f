//! The command line: its grammar, parsed into a command, and the text the
//! commands print.

use vstd::prelude::*;
use crate::restic::views;
use crate::text::{concat2, concat3, copy_string, push_char, str_eq};

verus! {

/// Which kind of item `show` describes.
#[derive(Clone, Copy, Debug, PartialEq, Eq, Structural)]
pub enum ShowKind {
    Job,
    Repo,
}

/// The subcommands and their arguments.
#[derive(Debug)]
pub enum Commands {
    /// Run a backup job; `--dry-run` previews it without writing data and
    /// skips the hooks.
    Run { name: String, dry_run: bool },
    /// Restore from a backup job, into a required target directory.
    Restore { name: String, snapshot: Option<String>, target: String },
    /// Prune old snapshots for a job.
    Prune { name: String },
    /// List snapshots for a job.
    List { name: String, format: Option<String> },
    /// Check repository integrity for a job.
    Check { name: String },
    /// Unlock the repository for a job.
    Unlock { name: String },
    /// Run the scheduler daemon.
    Daemon,
    /// List all jobs.
    Jobs { format: Option<String> },
    /// List all repositories.
    Repos { format: Option<String> },
    /// Initialize a repository.
    Init { name: String },
    /// Initialize or reset the exclude file with defaults.
    InitExclude,
    /// Open the interactive terminal dashboard.
    Tui,
    /// Show full details for a job or repository.
    Show { kind: ShowKind, name: String, format: Option<String> },
}

/// A parsed command line.
#[derive(Debug)]
pub struct Cli {
    pub command: Commands,
}

/// What went wrong while parsing a command line, or that help was asked
/// for.
#[derive(Clone, Copy, Debug, PartialEq, Eq, Structural)]
pub enum CliErrorKind {
    /// Help was asked for (`--help`, `-h` or the `help` subcommand).
    Help,
    /// No subcommand was given: the help is shown as an error.
    MissingSubcommand,
    /// The subcommand is not known.
    UnknownSubcommand,
    /// An option that the command does not take.
    UnknownArgument,
    /// A positional argument beyond those the subcommand takes.
    UnexpectedArgument,
    /// A subcommand name given after `--`.
    UnnecessaryDoubleDash,
    /// An option that takes a value was given none.
    MissingValue,
    /// An option was given twice.
    DuplicateOption,
    /// A value outside the allowed ones.
    InvalidValue,
    /// A value attached to a flag that takes none.
    UnexpectedValue,
    /// Required arguments are missing.
    MissingArgument,
}

/// A command-line error: its kind, the argument it concerns (for help, the
/// command whose help is asked for), the offending value where there is
/// one, the usage line that the message shows (empty when it shows none),
/// and a detail: for help, whether the long form was asked for; for an
/// unexpected argument, whether the message suggests passing it after `--`.
#[derive(Debug)]
pub struct CliError {
    pub kind: CliErrorKind,
    pub arg: String,
    pub value: String,
    pub usage: String,
    pub detail: bool,
    /// The names a similar one may be offered from, each with the usage
    /// line shown when it is offered.
    pub hints: Vec<(String, String)>,
}

/// A parse failure as plain values: kind, argument, value, usage, detail,
/// and the names that the "a similar … exists" tip may offer, each with
/// the usage line shown when it is offered.
pub type Failure = (CliErrorKind, Seq<char>, Seq<char>, Seq<char>, bool, Seq<(Seq<char>, Seq<char>)>);

/// The subcommands.
pub open spec fn is_subcommand(s: Seq<char>) -> bool {
    s == "run"@ || s == "restore"@ || s == "prune"@ || s == "list"@ || s == "check"@ || s
        == "unlock"@ || s == "daemon"@ || s == "jobs"@ || s == "repos"@ || s == "init"@ || s
        == "init-exclude"@ || s == "tui"@ || s == "show"@
}

/// How many positional arguments a subcommand takes.
pub open spec fn positional_count(sub: Seq<char>) -> nat {
    if sub == "show"@ {
        2
    } else if sub == "run"@ || sub == "restore"@ || sub == "prune"@ || sub == "list"@ || sub
        == "check"@ || sub == "unlock"@ || sub == "init"@ {
        1
    } else {
        0
    }
}

/// Whether `name` is an option with a value that `sub` takes.
pub open spec fn takes_value(sub: Seq<char>, name: Seq<char>) -> bool {
    ||| sub == "restore"@ && (name == "--snapshot"@ || name == "--target"@)
    ||| (sub == "list"@ || sub == "jobs"@ || sub == "repos"@ || sub == "show"@) && name
        == "--format"@
}

/// Whether `name` is a flag that `sub` takes.
pub open spec fn takes_flag(sub: Seq<char>, name: Seq<char>) -> bool {
    sub == "run"@ && name == "--dry-run"@
}

/// `t` has the form of a long option: `--` followed by something.
pub open spec fn is_long(t: Seq<char>) -> bool {
    t.len() > 2 && t[0] == '-' && t[1] == '-'
}

/// `t` has the form of a short option: `-` followed by something.
pub open spec fn is_short(t: Seq<char>) -> bool {
    t.len() > 1 && t[0] == '-'
}

/// The text before the first `=` (all of it when there is none).
pub open spec fn before_eq(s: Seq<char>) -> Seq<char>
    decreases s.len(),
{
    if s.len() == 0 {
        s
    } else if s[0] == '=' {
        seq![]
    } else {
        seq![s[0]] + before_eq(s.drop_first())
    }
}

/// The text after the first `=`, when there is one.
pub open spec fn after_eq(s: Seq<char>) -> Option<Seq<char>>
    decreases s.len(),
{
    if s.len() == 0 {
        None
    } else if s[0] == '=' {
        Some(s.drop_first())
    } else {
        after_eq(s.drop_first())
    }
}

/// The option name of a long option token (`--name` of `--name=value`).
pub open spec fn long_name(t: Seq<char>) -> Seq<char> {
    "--"@ + before_eq(t.skip(2))
}

/// The inline value of a long option token (`value` of `--name=value`).
pub open spec fn long_inline(t: Seq<char>) -> Option<Seq<char>> {
    after_eq(t.skip(2))
}

/// What has been read of a subcommand's arguments so far.
#[verifier::ext_equal]
pub struct ScanState {
    pub positionals: Seq<Seq<char>>,
    pub snapshot: Option<Seq<char>>,
    pub target: Option<Seq<char>>,
    pub format: Option<Seq<char>>,
    pub dry_run: bool,
    /// After `--`: every token is positional.
    pub raw: bool,
}

/// Nothing read yet.
pub open spec fn empty_state() -> ScanState {
    ScanState {
        positionals: seq![],
        snapshot: None,
        target: None,
        format: None,
        dry_run: false,
        raw: false,
    }
}

/// The value already read for option `name`.
pub open spec fn slot(st: ScanState, name: Seq<char>) -> Option<Seq<char>> {
    if name == "--snapshot"@ {
        st.snapshot
    } else if name == "--target"@ {
        st.target
    } else {
        st.format
    }
}

/// The state with option `name` set to `v`.
pub open spec fn with_slot(st: ScanState, name: Seq<char>, v: Seq<char>) -> ScanState {
    if name == "--snapshot"@ {
        ScanState { snapshot: Some(v), ..st }
    } else if name == "--target"@ {
        ScanState { target: Some(v), ..st }
    } else {
        ScanState { format: Some(v), ..st }
    }
}

/// Whether a subcommand takes positional arguments.
pub open spec fn has_positionals(sub: Seq<char>) -> bool {
    positional_count(sub) > 0
}

/// How an option is named in messages: with its value name, if it takes
/// a value.
pub open spec fn opt_display(name: Seq<char>) -> Seq<char> {
    if name == "--format"@ {
        "--format <FORMAT>"@
    } else if name == "--target"@ {
        "--target <TARGET>"@
    } else if name == "--snapshot"@ {
        "--snapshot <SNAPSHOT>"@
    } else {
        name
    }
}

/// The usage line of the program itself.
pub open spec fn top_usage() -> Seq<char> {
    "restic-manager <COMMAND>"@
}

/// The usage line of a subcommand (or of `help`) as its help shows it.
pub open spec fn default_usage(sub: Seq<char>) -> Seq<char> {
    if sub == "run"@ {
        "restic-manager run [OPTIONS] <NAME>"@
    } else if sub == "restore"@ {
        "restic-manager restore [OPTIONS] --target <TARGET> <NAME>"@
    } else if sub == "list"@ {
        "restic-manager list [OPTIONS] <NAME>"@
    } else if sub == "jobs"@ {
        "restic-manager jobs [OPTIONS]"@
    } else if sub == "repos"@ {
        "restic-manager repos [OPTIONS]"@
    } else if sub == "show"@ {
        "restic-manager show [OPTIONS] <KIND> <NAME>"@
    } else if sub == "help"@ {
        "restic-manager help [COMMAND]..."@
    } else if positional_count(sub) == 1 {
        "restic-manager "@ + sub + " <NAME>"@
    } else {
        "restic-manager "@ + sub
    }
}

/// The positional arguments of a subcommand, as usage lines show them.
pub open spec fn positional_usage(sub: Seq<char>) -> Seq<char> {
    if sub == "show"@ {
        " <KIND> <NAME>"@
    } else if positional_count(sub) == 1 {
        " <NAME>"@
    } else {
        seq![]
    }
}

/// The usage line fitted to what was given: the required options, those
/// given (and `--help` when `help` is set), then the positional arguments.
pub open spec fn smart_usage(sub: Seq<char>, st: ScanState, help: bool) -> Seq<char> {
    usage_line(sub, st.snapshot is Some, st.format is Some, st.dry_run, help)
}

/// The usage line naming the required options, the options flagged here
/// and the positional arguments.
pub open spec fn usage_line(sub: Seq<char>, snapshot: bool, format: bool, dry_run: bool, help: bool) -> Seq<char> {
    "restic-manager "@ + sub + (if sub == "restore"@ {
        " --target <TARGET>"@
    } else {
        seq![]
    }) + (if snapshot {
        " --snapshot <SNAPSHOT>"@
    } else {
        seq![]
    }) + (if format {
        " --format <FORMAT>"@
    } else {
        seq![]
    }) + (if dry_run {
        " --dry-run"@
    } else {
        seq![]
    }) + (if help {
        " --help"@
    } else {
        seq![]
    }) + positional_usage(sub)
}

/// Whether any argument has been given to the subcommand.
pub open spec fn any_given(st: ScanState) -> bool {
    st.positionals.len() > 0 || st.snapshot is Some || st.target is Some || st.format is Some
        || st.dry_run
}

/// Help for `cmd` (empty for the program itself), long or short.
pub open spec fn help_failure(cmd: Seq<char>, long: bool) -> Failure {
    (CliErrorKind::Help, cmd, seq![], seq![], long, seq![])
}

/// An option that takes a value was given none.
pub open spec fn missing_value(name: Seq<char>) -> Failure {
    (CliErrorKind::MissingValue, opt_display(name), seq![], seq![], false, seq![])
}

/// A value attached to the flag `name`, shown with the usage `usage`.
pub open spec fn unexpected_value(name: Seq<char>, v: Seq<char>, usage: Seq<char>) -> Failure {
    (CliErrorKind::UnexpectedValue, name, v, usage, false, seq![])
}

/// The names a similar one may be offered from for a refused value.
pub open spec fn value_hints(arg: Seq<char>) -> Seq<(Seq<char>, Seq<char>)> {
    if arg == "--format <FORMAT>"@ {
        seq![("json"@, Seq::<char>::empty())]
    } else {
        seq![("job"@, Seq::<char>::empty()), ("repo"@, Seq::<char>::empty())]
    }
}

/// The subcommands a similar one may be offered from, `help` last.
pub open spec fn subcommand_hints() -> Seq<(Seq<char>, Seq<char>)> {
    seq![
        ("run"@, Seq::<char>::empty()),
        ("restore"@, Seq::<char>::empty()),
        ("prune"@, Seq::<char>::empty()),
        ("list"@, Seq::<char>::empty()),
        ("check"@, Seq::<char>::empty()),
        ("unlock"@, Seq::<char>::empty()),
        ("daemon"@, Seq::<char>::empty()),
        ("jobs"@, Seq::<char>::empty()),
        ("repos"@, Seq::<char>::empty()),
        ("init"@, Seq::<char>::empty()),
        ("init-exclude"@, Seq::<char>::empty()),
        ("tui"@, Seq::<char>::empty()),
        ("show"@, Seq::<char>::empty()),
        ("help"@, Seq::<char>::empty()),
    ]
}

/// The long option the program itself takes, with the usage line shown
/// when it is offered.
pub open spec fn top_long_hints() -> Seq<(Seq<char>, Seq<char>)> {
    seq![("help"@, "restic-manager --help <COMMAND>"@)]
}

/// The long options of `sub` that the program itself may point to, each
/// paired with `sub`'s name.
pub open spec fn sub_longs(sub: Seq<char>) -> Seq<(Seq<char>, Seq<char>)> {
    if sub == "run"@ {
        seq![("dry-run"@, sub)]
    } else if sub == "restore"@ {
        seq![("snapshot"@, sub), ("target"@, sub)]
    } else if sub == "list"@ || sub == "jobs"@ || sub == "repos"@ || sub == "show"@ {
        seq![("format"@, sub)]
    } else {
        seq![]
    }
}

/// For an unknown option given before any subcommand: the options of the
/// subcommands named among the first `n` later tokens, in the order those
/// names first appear.
pub open spec fn sub_hints_upto(rest: Seq<Seq<char>>, n: int) -> Seq<(Seq<char>, Seq<char>)>
    decreases n,
{
    if n <= 0 || n > rest.len() {
        seq![]
    } else {
        sub_hints_upto(rest, n - 1) + (if is_subcommand(rest[n - 1]) && !rest.take(n - 1).contains(
            rest[n - 1],
        ) {
            sub_longs(rest[n - 1])
        } else {
            seq![]
        })
    }
}

/// The long options of `sub` (without their dashes), each with the usage
/// line shown when it is offered: the arguments given and the offered one.
pub open spec fn long_hints(sub: Seq<char>, st: ScanState) -> Seq<(Seq<char>, Seq<char>)> {
    let help = ("help"@, smart_usage(sub, st, true));
    if sub == "run"@ {
        seq![("dry-run"@, smart_usage(sub, ScanState { dry_run: true, ..st }, false)), help]
    } else if sub == "restore"@ {
        seq![
            ("snapshot"@, smart_usage(sub, ScanState { snapshot: Some(Seq::<char>::empty()), ..st }, false)),
            ("target"@, smart_usage(sub, st, false)),
            help,
        ]
    } else if sub == "list"@ || sub == "jobs"@ || sub == "repos"@ || sub == "show"@ {
        seq![("format"@, smart_usage(sub, ScanState { format: Some(Seq::<char>::empty()), ..st }, false)), help]
    } else {
        seq![help]
    }
}

/// A long option `name` that `sub` does not take.
pub open spec fn unknown_long(sub: Seq<char>, st: ScanState, name: Seq<char>) -> Failure {
    (
        CliErrorKind::UnknownArgument,
        name,
        seq![],
        if any_given(st) {
            smart_usage(sub, st, false)
        } else {
            default_usage(sub)
        },
        has_positionals(sub),
        long_hints(sub, st),
    )
}

/// A short option `-c` that `sub` does not take.
pub open spec fn unknown_short(sub: Seq<char>, c: char) -> Failure {
    (CliErrorKind::UnknownArgument, seq!['-', c], seq![], default_usage(sub), has_positionals(sub), seq![])
}

/// The value name of `show`'s first argument.
pub open spec fn kind_name() -> Seq<char> {
    "<KIND>"@
}

/// Records a value for option `name`, refusing a second one, an empty
/// `--format` and a `--format` other than `json`.
pub open spec fn set_value(sub: Seq<char>, st: ScanState, name: Seq<char>, v: Seq<char>) -> Result<
    ScanState,
    Failure,
> {
    if slot(st, name) is Some {
        Err((CliErrorKind::DuplicateOption, opt_display(name), seq![], default_usage(sub), false, seq![]))
    } else if name == "--format"@ && v.len() == 0 {
        Err(missing_value(name))
    } else if name == "--format"@ && v != "json"@ {
        Err((CliErrorKind::InvalidValue, opt_display(name), v, seq![], false, value_hints(opt_display(name))))
    } else {
        Ok(with_slot(st, name, v))
    }
}

/// Records a positional argument: refused beyond the subcommand's count;
/// the kind of `show` must be `job` or `repo`.
pub open spec fn add_positional(sub: Seq<char>, st: ScanState, t: Seq<char>) -> Result<
    ScanState,
    Failure,
> {
    if st.positionals.len() >= positional_count(sub) {
        Err((CliErrorKind::UnexpectedArgument, t, seq![], default_usage(sub), false, seq![]))
    } else if sub == "show"@ && st.positionals.len() == 0 && t != "job"@ && t != "repo"@ {
        Err((CliErrorKind::InvalidValue, kind_name(), t, seq![], false, value_hints(kind_name())))
    } else {
        Ok(ScanState { positionals: st.positionals.push(t), ..st })
    }
}

/// What the token `next` after an option `name` that awaits a value does:
/// an ordinary token is the value; `--`, `--help`, `-h…` and another known
/// option leave the option without one; an unknown option or an attached
/// value on `--help` is reported itself.
pub open spec fn value_follow(sub: Seq<char>, st: ScanState, name: Seq<char>, next: Seq<char>) -> Result<
    ScanState,
    Failure,
> {
    if next == "--"@ {
        Err(missing_value(name))
    } else if is_long(next) {
        let n2 = long_name(next);
        if n2 == "--help"@ {
            match long_inline(next) {
                Some(v) => Err(unexpected_value(n2, v, smart_usage(sub, st, true))),
                None => Err(missing_value(name)),
            }
        } else if takes_value(sub, n2) || takes_flag(sub, n2) {
            Err(missing_value(name))
        } else {
            Err(unknown_long(sub, st, n2))
        }
    } else if is_short(next) {
        if next[1] == 'h' {
            Err(missing_value(name))
        } else {
            Err(unknown_short(sub, next[1]))
        }
    } else {
        set_value(sub, st, name, next)
    }
}

/// Whether `t` given as `show`'s first argument is a kind it refuses.
pub open spec fn bad_kind(sub: Seq<char>, st: ScanState, t: Seq<char>) -> bool {
    sub == "show"@ && st.positionals.len() == 0 && t != "job"@ && t != "repo"@
}

/// The failure a refused kind `t` at position `i` leads to: the refusal
/// itself, unless the next token is an unknown option, or `--help` with a
/// value, which is reported instead.
pub open spec fn bad_kind_follow(sub: Seq<char>, st: ScanState, toks: Seq<Seq<char>>, i: int) -> Failure {
    let t = toks[i];
    let given = ScanState { positionals: st.positionals.push(t), ..st };
    let refused = (CliErrorKind::InvalidValue, kind_name(), t, Seq::<char>::empty(), false, value_hints(kind_name()));
    if st.raw || i + 1 >= toks.len() {
        refused
    } else {
        let next = toks[i + 1];
        if next == "--"@ {
            refused
        } else if is_long(next) {
            let n2 = long_name(next);
            if n2 == "--help"@ {
                match long_inline(next) {
                    Some(v) => unexpected_value(n2, v, smart_usage(sub, given, true)),
                    None => refused,
                }
            } else if takes_value(sub, n2) || takes_flag(sub, n2) {
                refused
            } else {
                unknown_long(sub, given, n2)
            }
        } else if is_short(next) {
            if next[1] == 'h' {
                refused
            } else {
                unknown_short(sub, next[1])
            }
        } else {
            refused
        }
    }
}

/// How many tokens the token at `i` consumes and the state after it, or
/// the failure (or help request) it causes.
pub open spec fn step(sub: Seq<char>, toks: Seq<Seq<char>>, i: int, st: ScanState) -> Result<
    (int, ScanState),
    Failure,
> {
    let t = toks[i];
    if st.raw && bad_kind(sub, st, t) {
        Err(bad_kind_follow(sub, st, toks, i))
    } else if st.raw {
        match add_positional(sub, st, t) {
            Ok(s) => Ok((1, s)),
            Err(f) => Err(f),
        }
    } else if t == "--"@ {
        Ok((1, ScanState { raw: true, ..st }))
    } else if is_long(t) {
        let name = long_name(t);
        if name == "--help"@ {
            match long_inline(t) {
                Some(v) => Err(unexpected_value(name, v, smart_usage(sub, st, true))),
                None => Err(help_failure(sub, true)),
            }
        } else if takes_value(sub, name) {
            match long_inline(t) {
                Some(v) => match set_value(sub, st, name, v) {
                    Ok(s) => Ok((1, s)),
                    Err(f) => Err(f),
                },
                None => if i + 1 < toks.len() {
                    match value_follow(sub, st, name, toks[i + 1]) {
                        Ok(s) => Ok((2, s)),
                        Err(f) => Err(f),
                    }
                } else {
                    Err(missing_value(name))
                },
            }
        } else if takes_flag(sub, name) {
            match long_inline(t) {
                Some(v) => Err(
                    unexpected_value(name, v, smart_usage(sub, ScanState { dry_run: true, ..st }, false)),
                ),
                None => if st.dry_run {
                    Err((CliErrorKind::DuplicateOption, name, seq![], default_usage(sub), false, seq![]))
                } else {
                    Ok((1, ScanState { dry_run: true, ..st }))
                },
            }
        } else {
            Err(unknown_long(sub, st, name))
        }
    } else if is_short(t) {
        if t[1] == 'h' {
            Err(help_failure(sub, false))
        } else {
            Err(unknown_short(sub, t[1]))
        }
    } else if bad_kind(sub, st, t) {
        Err(bad_kind_follow(sub, st, toks, i))
    } else {
        match add_positional(sub, st, t) {
            Ok(s) => Ok((1, s)),
            Err(f) => Err(f),
        }
    }
}

/// Reads the tokens from `i` on, left to right, stopping at the first
/// failure.
pub open spec fn scan(sub: Seq<char>, toks: Seq<Seq<char>>, i: int, st: ScanState) -> Result<
    ScanState,
    Failure,
>
    decreases toks.len() - i,
{
    if i < 0 || i >= toks.len() {
        Ok(st)
    } else {
        match step(sub, toks, i, st) {
            Ok((n, s)) => if n >= 1 {
                scan(sub, toks, i + n, s)
            } else {
                Ok(s)
            },
            Err(f) => Err(f),
        }
    }
}

/// The missing positional arguments, one per line of the message.
pub open spec fn missing_positionals(sub: Seq<char>, st: ScanState) -> Seq<char> {
    if st.positionals.len() >= positional_count(sub) {
        seq![]
    } else if sub == "show"@ && st.positionals.len() == 0 {
        "<KIND>\n  <NAME>"@
    } else {
        "<NAME>"@
    }
}

/// The required arguments that are missing, options first, one per line.
pub open spec fn missing_text(sub: Seq<char>, st: ScanState) -> Seq<char> {
    let p = missing_positionals(sub, st);
    if sub == "restore"@ && st.target is None {
        if p.len() == 0 {
            "--target <TARGET>"@
        } else {
            "--target <TARGET>\n  "@ + p
        }
    } else {
        p
    }
}

/// The checks made once every token is read: every positional argument
/// and, for `restore`, `--target`, must be there.
pub open spec fn finish(sub: Seq<char>, st: ScanState) -> Result<ScanState, Failure> {
    if missing_text(sub, st).len() > 0 {
        Err((CliErrorKind::MissingArgument, missing_text(sub, st), seq![], smart_usage(sub, st, false), false, seq![]))
    } else {
        Ok(st)
    }
}

/// The usage line of what `help` was walking through when it met an
/// unknown name.
pub open spec fn help_usage(cmd: Seq<char>) -> Seq<char> {
    if cmd.len() == 0 {
        top_usage()
    } else {
        default_usage(cmd)
    }
}

/// The `help` subcommand: each name in turn selects a subcommand (only the
/// first one can); the help asked for is that of the last one selected.
pub open spec fn help_walk(rest: Seq<Seq<char>>, i: int, cmd: Seq<char>) -> Failure
    decreases rest.len() - i,
{
    if i < 0 || i >= rest.len() {
        help_failure(cmd, true)
    } else {
        let u = rest[i];
        if cmd.len() == 0 && (is_subcommand(u) || u == "help"@) {
            help_walk(rest, i + 1, u)
        } else {
            (CliErrorKind::UnknownSubcommand, u, seq![], help_usage(cmd), false, seq![])
        }
    }
}

/// A whole command line, program name first: the subcommand and what its
/// arguments read to, or the first failure.
pub open spec fn parse_args(args: Seq<Seq<char>>) -> Result<(Seq<char>, ScanState), Failure> {
    if args.len() < 2 {
        Err((CliErrorKind::MissingSubcommand, seq![], seq![], seq![], false, seq![]))
    } else {
        let t = args[1];
        if t == "--"@ {
            if args.len() == 2 {
                Err((CliErrorKind::MissingSubcommand, seq![], seq![], seq![], false, seq![]))
            } else if is_subcommand(args[2]) || args[2] == "help"@ {
                Err((CliErrorKind::UnnecessaryDoubleDash, args[2], seq![], top_usage(), false, seq![]))
            } else {
                Err((CliErrorKind::UnknownSubcommand, args[2], seq![], top_usage(), false, subcommand_hints()))
            }
        } else if t == "help"@ {
            Err(help_walk(args.skip(2), 0, seq![]))
        } else if is_subcommand(t) {
            match scan(t, args.skip(2), 0, empty_state()) {
                Ok(st) => match finish(t, st) {
                    Ok(s) => Ok((t, s)),
                    Err(f) => Err(f),
                },
                Err(f) => Err(f),
            }
        } else if is_long(t) {
            let name = long_name(t);
            if name == "--help"@ {
                match long_inline(t) {
                    Some(v) => Err(unexpected_value(name, v, "restic-manager --help <COMMAND>"@)),
                    None => Err(help_failure(seq![], true)),
                }
            } else {
                Err(
                    (
                        CliErrorKind::UnknownArgument,
                        name,
                        seq![],
                        top_usage(),
                        false,
                        top_long_hints() + sub_hints_upto(args.skip(2), args.len() - 2),
                    ),
                )
            }
        } else if is_short(t) {
            if t[1] == 'h' {
                Err(help_failure(seq![], false))
            } else {
                Err((CliErrorKind::UnknownArgument, seq!['-', t[1]], seq![], top_usage(), false, seq![]))
            }
        } else {
            Err((CliErrorKind::UnknownSubcommand, t, seq![], top_usage(), false, subcommand_hints()))
        }
    }
}

/// The optional text of an optional string.
pub open spec fn opt_view(o: Option<String>) -> Option<Seq<char>> {
    match o {
        Some(s) => Some(s@),
        None => None,
    }
}

/// `cli` is the command that subcommand `sub` with arguments `st` denotes.
pub open spec fn denotes(cli: Cli, sub: Seq<char>, st: ScanState) -> bool {
    match cli.command {
        Commands::Run { name, dry_run } => sub == "run"@ && name@ == st.positionals[0] && dry_run
            == st.dry_run,
        Commands::Restore { name, snapshot, target } => sub == "restore"@ && name@
            == st.positionals[0] && opt_view(snapshot) == st.snapshot && st.target == Some(target@),
        Commands::Prune { name } => sub == "prune"@ && name@ == st.positionals[0],
        Commands::List { name, format } => sub == "list"@ && name@ == st.positionals[0] && opt_view(
            format,
        ) == st.format,
        Commands::Check { name } => sub == "check"@ && name@ == st.positionals[0],
        Commands::Unlock { name } => sub == "unlock"@ && name@ == st.positionals[0],
        Commands::Daemon => sub == "daemon"@,
        Commands::Jobs { format } => sub == "jobs"@ && opt_view(format) == st.format,
        Commands::Repos { format } => sub == "repos"@ && opt_view(format) == st.format,
        Commands::Init { name } => sub == "init"@ && name@ == st.positionals[0],
        Commands::InitExclude => sub == "init-exclude"@,
        Commands::Tui => sub == "tui"@,
        Commands::Show { kind, name, format } => sub == "show"@ && (kind == ShowKind::Job <==> st.positionals[0]
            == "job"@) && name@ == st.positionals[1] && opt_view(format) == st.format,
    }
}

/// The error's parts as plain values.
pub open spec fn failure_of(e: CliError) -> Failure {
    (e.kind, e.arg@, e.value@, e.usage@, e.detail, hints_view(e.hints@))
}

/// The hints as text.
pub open spec fn hints_view(h: Seq<(String, String)>) -> Seq<(Seq<char>, Seq<char>)> {
    h.map_values(|p: (String, String)| (p.0@, p.1@))
}

fn fail(kind: CliErrorKind, arg: String, value: String, usage: String, detail: bool) -> (e: CliError)
    ensures
        failure_of(e) == (kind, arg@, value@, usage@, detail, Seq::<(Seq<char>, Seq<char>)>::empty()),
{
    let e = CliError { kind, arg, value, usage, detail, hints: Vec::new() };
    assert(hints_view(e.hints@) =~= Seq::<(Seq<char>, Seq<char>)>::empty());
    e
}

fn fail_hinted(
    kind: CliErrorKind,
    arg: String,
    value: String,
    usage: String,
    detail: bool,
    hints: Vec<(String, String)>,
) -> (e: CliError)
    ensures
        failure_of(e) == (kind, arg@, value@, usage@, detail, hints_view(hints@)),
{
    CliError { kind, arg, value, usage, detail, hints }
}

fn push_hint(h: &mut Vec<(String, String)>, name: &str, usage: String)
    ensures
        hints_view(final(h)@) == hints_view(old(h)@).push((name@, usage@)),
{
    h.push((String::from_str(name), usage));
    assert(hints_view(final(h)@) =~= hints_view(old(h)@).push((name@, usage@)));
}

fn value_hints_exec(arg: &str) -> (r: Vec<(String, String)>)
    ensures
        hints_view(r@) == value_hints(arg@),
{
    let mut h: Vec<(String, String)> = Vec::new();
    proof {
        assert(hints_view(h@) =~= Seq::<(Seq<char>, Seq<char>)>::empty());
    }
    if str_eq(arg, "--format <FORMAT>") {
        push_hint(&mut h, "json", empty_string());
    } else {
        push_hint(&mut h, "job", empty_string());
        push_hint(&mut h, "repo", empty_string());
    }
    h
}

fn subcommand_hints_exec() -> (r: Vec<(String, String)>)
    ensures
        hints_view(r@) == subcommand_hints(),
{
    let mut h: Vec<(String, String)> = Vec::new();
    proof {
        assert(hints_view(h@) =~= Seq::<(Seq<char>, Seq<char>)>::empty());
    }
    push_hint(&mut h, "run", empty_string());
    push_hint(&mut h, "restore", empty_string());
    push_hint(&mut h, "prune", empty_string());
    push_hint(&mut h, "list", empty_string());
    push_hint(&mut h, "check", empty_string());
    push_hint(&mut h, "unlock", empty_string());
    push_hint(&mut h, "daemon", empty_string());
    push_hint(&mut h, "jobs", empty_string());
    push_hint(&mut h, "repos", empty_string());
    push_hint(&mut h, "init", empty_string());
    push_hint(&mut h, "init-exclude", empty_string());
    push_hint(&mut h, "tui", empty_string());
    push_hint(&mut h, "show", empty_string());
    push_hint(&mut h, "help", empty_string());
    assert(hints_view(h@) =~= subcommand_hints());
    h
}

fn top_long_hints_exec() -> (r: Vec<(String, String)>)
    ensures
        hints_view(r@) == top_long_hints(),
{
    let mut h: Vec<(String, String)> = Vec::new();
    proof {
        assert(hints_view(h@) =~= Seq::<(Seq<char>, Seq<char>)>::empty());
    }
    push_hint(&mut h, "help", String::from_str("restic-manager --help <COMMAND>"));
    assert(hints_view(h@) =~= top_long_hints());
    h
}

fn sub_longs_exec(h: &mut Vec<(String, String)>, sub: &str)
    ensures
        hints_view(final(h)@) == hints_view(old(h)@) + sub_longs(sub@),
{
    let ghost start = hints_view(h@);
    if str_eq(sub, "run") {
        push_hint(h, "dry-run", String::from_str(sub));
    } else if str_eq(sub, "restore") {
        push_hint(h, "snapshot", String::from_str(sub));
        push_hint(h, "target", String::from_str(sub));
    } else if str_eq(sub, "list") || str_eq(sub, "jobs") || str_eq(sub, "repos") || str_eq(sub, "show") {
        push_hint(h, "format", String::from_str(sub));
    }
    assert(hints_view(h@) =~= start + sub_longs(sub@));
}

fn top_hints_exec(args: &Vec<String>) -> (r: Vec<(String, String)>)
    requires
        args@.len() >= 2,
    ensures
        hints_view(r@) == top_long_hints() + sub_hints_upto(views(args@).skip(2), args@.len() - 2),
{
    let ghost rest = views(args@).skip(2);
    let mut h = top_long_hints_exec();
    let mut i: usize = 2;
    while i < args.len()
        invariant
            2 <= i <= args@.len(),
            rest == views(args@).skip(2),
            rest.len() == args@.len() - 2,
            hints_view(h@) == top_long_hints() + sub_hints_upto(rest, i - 2),
        decreases args@.len() - i,
    {
        let u = args[i].as_str();
        proof {
            assert(rest[i - 2] == u@);
        }
        let mut seen = false;
        let mut j: usize = 2;
        while j < i
            invariant
                2 <= j <= i,
                i < args@.len(),
                rest == views(args@).skip(2),
                rest.len() == args@.len() - 2,
                u@ == rest[i - 2],
                seen == exists|q: int| 0 <= q < j - 2 && rest[q] == u@,
            decreases i - j,
        {
            proof {
                assert(rest[j - 2] == args@[j as int]@);
            }
            if str_eq(args[j].as_str(), u) {
                seen = true;
            }
            j = j + 1;
        }
        proof {
            let pre = rest.take(i - 2);
            if seen {
                let q = choose|q: int| 0 <= q < i - 2 && rest[q] == u@;
                assert(pre[q] == u@);
            }
            if pre.contains(u@) {
                let q = choose|q: int| 0 <= q < pre.len() && pre[q] == u@;
                assert(rest[q] == u@);
            }
        }
        if is_subcommand_exec(u) && !seen {
            sub_longs_exec(&mut h, u);
        }
        proof {
            assert(hints_view(h@) =~= top_long_hints() + sub_hints_upto(rest, i - 2 + 1));
        }
        i = i + 1;
    }
    h
}

fn long_hints_exec(sub: &str, st: &Scanned) -> (r: Vec<(String, String)>)
    ensures
        hints_view(r@) == long_hints(sub@, st.state()),
{
    let mut h: Vec<(String, String)> = Vec::new();
    proof {
        assert(hints_view(h@) =~= Seq::<(Seq<char>, Seq<char>)>::empty());
    }
    let snap = st.snapshot.is_some();
    let fmt = st.format.is_some();
    if str_eq(sub, "run") {
        push_hint(&mut h, "dry-run", usage_line_exec(sub, snap, fmt, true, false));
    } else if str_eq(sub, "restore") {
        push_hint(&mut h, "snapshot", usage_line_exec(sub, true, fmt, st.dry_run, false));
        push_hint(&mut h, "target", usage_line_exec(sub, snap, fmt, st.dry_run, false));
    } else if str_eq(sub, "list") || str_eq(sub, "jobs") || str_eq(sub, "repos") || str_eq(sub, "show") {
        push_hint(&mut h, "format", usage_line_exec(sub, snap, true, st.dry_run, false));
    }
    push_hint(&mut h, "help", usage_line_exec(sub, snap, fmt, st.dry_run, true));
    assert(hints_view(h@) =~= long_hints(sub@, st.state()));
    h
}

fn empty_string() -> (s: String)
    ensures
        s@ == Seq::<char>::empty(),
{
    let s = String::new();
    assert(s@ =~= Seq::<char>::empty());
    s
}

fn positional_count_exec(sub: &str) -> (n: usize)
    ensures
        n == positional_count(sub@),
{
    if str_eq(sub, "show") {
        2
    } else if str_eq(sub, "run") || str_eq(sub, "restore") || str_eq(sub, "prune") || str_eq(
        sub,
        "list",
    ) || str_eq(sub, "check") || str_eq(sub, "unlock") || str_eq(sub, "init") {
        1
    } else {
        0
    }
}

fn opt_display_exec(name: &str) -> (r: String)
    ensures
        r@ == opt_display(name@),
{
    if str_eq(name, "--format") {
        String::from_str("--format <FORMAT>")
    } else if str_eq(name, "--target") {
        String::from_str("--target <TARGET>")
    } else if str_eq(name, "--snapshot") {
        String::from_str("--snapshot <SNAPSHOT>")
    } else {
        String::from_str(name)
    }
}

fn default_usage_exec(sub: &str) -> (r: String)
    ensures
        r@ == default_usage(sub@),
{
    if str_eq(sub, "run") {
        String::from_str("restic-manager run [OPTIONS] <NAME>")
    } else if str_eq(sub, "restore") {
        String::from_str("restic-manager restore [OPTIONS] --target <TARGET> <NAME>")
    } else if str_eq(sub, "list") {
        String::from_str("restic-manager list [OPTIONS] <NAME>")
    } else if str_eq(sub, "jobs") {
        String::from_str("restic-manager jobs [OPTIONS]")
    } else if str_eq(sub, "repos") {
        String::from_str("restic-manager repos [OPTIONS]")
    } else if str_eq(sub, "show") {
        String::from_str("restic-manager show [OPTIONS] <KIND> <NAME>")
    } else if str_eq(sub, "help") {
        String::from_str("restic-manager help [COMMAND]...")
    } else if positional_count_exec(sub) == 1 {
        concat3("restic-manager ", sub, " <NAME>")
    } else {
        concat2("restic-manager ", sub)
    }
}

fn help_usage_exec(cmd: &str) -> (r: String)
    ensures
        r@ == help_usage(cmd@),
{
    if cmd.unicode_len() == 0 {
        String::from_str("restic-manager <COMMAND>")
    } else {
        default_usage_exec(cmd)
    }
}

fn usage_line_exec(sub: &str, snapshot: bool, format: bool, dry_run: bool, help: bool) -> (r: String)
    ensures
        r@ == usage_line(sub@, snapshot, format, dry_run, help),
{
    let mut r = concat2("restic-manager ", sub);
    let ghost a = r@;
    if str_eq(sub, "restore") {
        r.append(" --target <TARGET>");
    }
    let ghost b = r@;
    if snapshot {
        r.append(" --snapshot <SNAPSHOT>");
    }
    let ghost c = r@;
    if format {
        r.append(" --format <FORMAT>");
    }
    let ghost d = r@;
    if dry_run {
        r.append(" --dry-run");
    }
    let ghost e = r@;
    if help {
        r.append(" --help");
    }
    let ghost f = r@;
    let n = positional_count_exec(sub);
    if str_eq(sub, "show") {
        r.append(" <KIND> <NAME>");
    } else if n == 1 {
        r.append(" <NAME>");
    }
    proof {
        assert(b =~= a + (if sub@ == "restore"@ { " --target <TARGET>"@ } else { seq![] }));
        assert(c =~= b + (if snapshot { " --snapshot <SNAPSHOT>"@ } else { seq![] }));
        assert(d =~= c + (if format { " --format <FORMAT>"@ } else { seq![] }));
        assert(e =~= d + (if dry_run { " --dry-run"@ } else { seq![] }));
        assert(f =~= e + (if help { " --help"@ } else { seq![] }));
        assert(r@ =~= f + positional_usage(sub@));
    }
    r
}

fn smart_usage_exec(sub: &str, st: &Scanned, help: bool) -> (r: String)
    ensures
        r@ == smart_usage(sub@, st.state(), help),
{
    usage_line_exec(sub, st.snapshot.is_some(), st.format.is_some(), st.dry_run, help)
}

fn missing_text_exec(sub: &str, st: &Scanned) -> (r: String)
    ensures
        r@ == missing_text(sub@, st.state()),
{
    let n = positional_count_exec(sub);
    let k = st.positionals.len();
    let p = if k >= n {
        empty_string()
    } else if str_eq(sub, "show") && k == 0 {
        String::from_str("<KIND>\n  <NAME>")
    } else {
        String::from_str("<NAME>")
    };
    proof {
        assert(st.state().positionals.len() == k);
        assert(p@ == missing_positionals(sub@, st.state()));
    }
    if str_eq(sub, "restore") && st.target.is_none() {
        if p.unicode_len() == 0 {
            String::from_str("--target <TARGET>")
        } else {
            concat2("--target <TARGET>\n  ", p.as_str())
        }
    } else {
        p
    }
}

fn any_given_exec(st: &Scanned) -> (b: bool)
    ensures
        b == any_given(st.state()),
{
    proof {
        assert(st.state().positionals.len() == st.positionals@.len());
    }
    st.positionals.len() > 0 || st.snapshot.is_some() || st.target.is_some() || st.format.is_some()
        || st.dry_run
}

fn help_exec(cmd: &str, long: bool) -> (e: CliError)
    ensures
        failure_of(e) == help_failure(cmd@, long),
{
    fail(CliErrorKind::Help, String::from_str(cmd), empty_string(), empty_string(), long)
}

fn missing_value_exec(name: &str) -> (e: CliError)
    ensures
        failure_of(e) == missing_value(name@),
{
    fail(CliErrorKind::MissingValue, opt_display_exec(name), empty_string(), empty_string(), false)
}

fn unknown_long_exec(sub: &str, st: &Scanned, name: &str) -> (e: CliError)
    ensures
        failure_of(e) == unknown_long(sub@, st.state(), name@),
{
    let usage = if any_given_exec(st) {
        smart_usage_exec(sub, st, false)
    } else {
        default_usage_exec(sub)
    };
    let tip = positional_count_exec(sub) > 0;
    fail_hinted(CliErrorKind::UnknownArgument, String::from_str(name), empty_string(), usage, tip, long_hints_exec(sub, st))
}

fn dash_char(c: char) -> (r: String)
    ensures
        r@ == seq!['-', c],
{
    let mut s = String::new();
    push_char(&mut s, '-');
    push_char(&mut s, c);
    assert(s@ =~= seq!['-', c]);
    s
}

fn unknown_short_exec(sub: &str, c: char) -> (e: CliError)
    ensures
        failure_of(e) == unknown_short(sub@, c),
{
    let tip = positional_count_exec(sub) > 0;
    fail(CliErrorKind::UnknownArgument, dash_char(c), empty_string(), default_usage_exec(sub), tip)
}

/// What has been read of a subcommand's arguments, as values.
struct Scanned {
    positionals: Vec<String>,
    snapshot: Option<String>,
    target: Option<String>,
    format: Option<String>,
    dry_run: bool,
    raw: bool,
}

impl Scanned {
    spec fn state(self) -> ScanState {
        ScanState {
            positionals: views(self.positionals@),
            snapshot: opt_view(self.snapshot),
            target: opt_view(self.target),
            format: opt_view(self.format),
            dry_run: self.dry_run,
            raw: self.raw,
        }
    }
}

proof fn lemma_option_names_distinct()
    ensures
        "--snapshot"@ != "--target"@,
        "--snapshot"@ != "--format"@,
        "--target"@ != "--format"@,
        "--format"@ != "--dry-run"@,
        "--snapshot"@ != "--dry-run"@,
        "--target"@ != "--dry-run"@,
{
    reveal_strlit("--snapshot");
    reveal_strlit("--target");
    reveal_strlit("--format");
    reveal_strlit("--dry-run");
    assert("--snapshot"@[2] != "--target"@[2]);
    assert("--snapshot"@[2] != "--format"@[2]);
    assert("--target"@[2] != "--format"@[2]);
    assert("--format"@[2] != "--dry-run"@[2]);
    assert("--snapshot"@[2] != "--dry-run"@[2]);
    assert("--target"@[2] != "--dry-run"@[2]);
}

fn set_value_exec(sub: &str, st: &mut Scanned, name: &str, v: String) -> (r: Result<(), CliError>)
    requires
        name@ == "--snapshot"@ || name@ == "--target"@ || name@ == "--format"@,
    ensures
        match set_value(sub@, old(st).state(), name@, v@) {
            Ok(s) => r is Ok && final(st).state() == s,
            Err(f) => r matches Err(e) && failure_of(e) == f,
        },
{
    proof {
        lemma_option_names_distinct();
    }
    let present = if str_eq(name, "--snapshot") {
        st.snapshot.is_some()
    } else if str_eq(name, "--target") {
        st.target.is_some()
    } else {
        st.format.is_some()
    };
    if present {
        return Err(
            fail(CliErrorKind::DuplicateOption, opt_display_exec(name), empty_string(), default_usage_exec(sub), false),
        );
    }
    if str_eq(name, "--format") && v.unicode_len() == 0 {
        return Err(missing_value_exec(name));
    }
    if str_eq(name, "--format") && !str_eq(v.as_str(), "json") {
        return Err(
            fail_hinted(
                CliErrorKind::InvalidValue,
                opt_display_exec(name),
                v,
                empty_string(),
                false,
                value_hints_exec("--format <FORMAT>"),
            ),
        );
    }
    if str_eq(name, "--snapshot") {
        st.snapshot = Some(v);
    } else if str_eq(name, "--target") {
        st.target = Some(v);
    } else {
        st.format = Some(v);
    }
    proof {
        assert(st.state() =~= with_slot(old(st).state(), name@, v@));
    }
    Ok(())
}

fn add_positional_exec(sub: &str, st: &mut Scanned, t: &str) -> (r: Result<(), CliError>)
    ensures
        match add_positional(sub@, old(st).state(), t@) {
            Ok(s) => r is Ok && final(st).state() == s,
            Err(f) => r matches Err(e) && failure_of(e) == f,
        },
{
    let count = positional_count_exec(sub);
    if st.positionals.len() >= count {
        return Err(
            fail(CliErrorKind::UnexpectedArgument, String::from_str(t), empty_string(), default_usage_exec(sub), false),
        );
    }
    if str_eq(sub, "show") && st.positionals.len() == 0 && !str_eq(t, "job") && !str_eq(t, "repo") {
        return Err(
            fail_hinted(
                CliErrorKind::InvalidValue,
                String::from_str("<KIND>"),
                String::from_str(t),
                empty_string(),
                false,
                value_hints_exec("<KIND>"),
            ),
        );
    }
    let ghost before = st.positionals@;
    st.positionals.push(String::from_str(t));
    proof {
        assert(views(st.positionals@) =~= views(before).push(t@));
        assert(st.state() =~= ScanState {
            positionals: old(st).state().positionals.push(t@),
            ..old(st).state()
        });
    }
    Ok(())
}

fn value_follow_exec(sub: &str, st: &mut Scanned, name: &str, next: &str) -> (r: Result<(), CliError>)
    requires
        name@ == "--snapshot"@ || name@ == "--target"@ || name@ == "--format"@,
    ensures
        match value_follow(sub@, old(st).state(), name@, next@) {
            Ok(s) => r is Ok && final(st).state() == s,
            Err(f) => r matches Err(e) && failure_of(e) == f,
        },
{
    if str_eq(next, "--") {
        return Err(missing_value_exec(name));
    }
    if is_long_token(next) {
        let (n2, inline) = split_long(next);
        if str_eq(n2.as_str(), "--help") {
            return match inline {
                Some(v) => Err(
                    fail(CliErrorKind::UnexpectedValue, n2, v, smart_usage_exec(sub, st, true), false),
                ),
                None => Err(missing_value_exec(name)),
            };
        }
        if takes_value_exec(sub, n2.as_str()) || (str_eq(sub, "run") && str_eq(n2.as_str(), "--dry-run")) {
            return Err(missing_value_exec(name));
        }
        return Err(unknown_long_exec(sub, st, n2.as_str()));
    }
    if is_short_token(next) {
        let c = next.get_char(1);
        if c == 'h' {
            return Err(missing_value_exec(name));
        }
        return Err(unknown_short_exec(sub, c));
    }
    set_value_exec(sub, st, name, String::from_str(next))
}

fn takes_value_exec(sub: &str, name: &str) -> (b: bool)
    ensures
        b == takes_value(sub@, name@),
{
    (str_eq(sub, "restore") && (str_eq(name, "--snapshot") || str_eq(name, "--target"))) || ((str_eq(
        sub,
        "list",
    ) || str_eq(sub, "jobs") || str_eq(sub, "repos") || str_eq(sub, "show")) && str_eq(name, "--format"))
}

fn bad_kind_exec(sub: &str, st: &mut Scanned, args: &Vec<String>, i: usize) -> (e: CliError)
    requires
        2 <= i < args@.len(),
    ensures
        failure_of(e) == bad_kind_follow(sub@, old(st).state(), views(args@).skip(2), i - 2),
{
    let ghost toks = views(args@).skip(2);
    let ghost st0 = st.state();
    let t = args[i].as_str();
    proof {
        assert(toks[i - 2] == t@);
    }
    let refused = fail_hinted(
        CliErrorKind::InvalidValue,
        String::from_str("<KIND>"),
        String::from_str(t),
        empty_string(),
        false,
        value_hints_exec("<KIND>"),
    );
    if st.raw || i >= args.len() - 1 {
        return refused;
    }
    let next = args[i + 1].as_str();
    proof {
        assert(toks[i - 2 + 1] == next@);
    }
    if str_eq(next, "--") {
        return refused;
    }
    let ghost before = st.positionals@;
    st.positionals.push(String::from_str(t));
    proof {
        assert(views(st.positionals@) =~= views(before).push(t@));
        assert(st.state() =~= ScanState { positionals: st0.positionals.push(t@), ..st0 });
    }
    if is_long_token(next) {
        let (n2, inline) = split_long(next);
        if str_eq(n2.as_str(), "--help") {
            return match inline {
                Some(v) => fail(CliErrorKind::UnexpectedValue, n2, v, smart_usage_exec(sub, st, true), false),
                None => refused,
            };
        }
        if takes_value_exec(sub, n2.as_str()) || (str_eq(sub, "run") && str_eq(n2.as_str(), "--dry-run")) {
            return refused;
        }
        return unknown_long_exec(sub, st, n2.as_str());
    }
    if is_short_token(next) {
        let c = next.get_char(1);
        if c == 'h' {
            return refused;
        }
        return unknown_short_exec(sub, c);
    }
    refused
}

fn step_exec(sub: &str, args: &Vec<String>, i: usize, st: &mut Scanned) -> (r: Result<
    usize,
    CliError,
>)
    requires
        2 <= i < args@.len(),
    ensures
        match step(sub@, views(args@).skip(2), i - 2, old(st).state()) {
            Ok((n, s)) => r matches Ok(m) && m == n && final(st).state() == s,
            Err(f) => r matches Err(e) && failure_of(e) == f,
        },
{
    let ghost toks = views(args@).skip(2);
    let t = args[i].as_str();
    proof {
        assert(toks[i - 2] == t@);
    }
    let bad = str_eq(sub, "show") && st.positionals.len() == 0 && !str_eq(t, "job") && !str_eq(t, "repo");
    proof {
        assert(st.state().positionals.len() == st.positionals@.len());
        assert(bad == bad_kind(sub@, old(st).state(), t@));
    }
    if st.raw && bad {
        return Err(bad_kind_exec(sub, st, args, i));
    }
    if st.raw {
        return match add_positional_exec(sub, st, t) {
            Ok(()) => Ok(1),
            Err(e) => Err(e),
        };
    }
    if str_eq(t, "--") {
        st.raw = true;
        proof {
            assert(st.state() =~= ScanState { raw: true, ..old(st).state() });
        }
        return Ok(1);
    }
    if is_long_token(t) {
        let (name, inline) = split_long(t);
        if str_eq(name.as_str(), "--help") {
            return match inline {
                Some(v) => Err(
                    fail(CliErrorKind::UnexpectedValue, name, v, smart_usage_exec(sub, st, true), false),
                ),
                None => Err(help_exec(sub, true)),
            };
        }
        if takes_value_exec(sub, name.as_str()) {
            match inline {
                Some(v) => {
                    return match set_value_exec(sub, st, name.as_str(), v) {
                        Ok(()) => Ok(1),
                        Err(e) => Err(e),
                    };
                },
                None => {
                    if i < args.len() - 1 {
                        proof {
                            assert(toks[i - 2 + 1] == args@[i + 1]@);
                        }
                        return match value_follow_exec(sub, st, name.as_str(), args[i + 1].as_str()) {
                            Ok(()) => Ok(2),
                            Err(e) => Err(e),
                        };
                    } else {
                        return Err(missing_value_exec(name.as_str()));
                    }
                },
            }
        }
        if str_eq(sub, "run") && str_eq(name.as_str(), "--dry-run") {
            match inline {
                Some(v) => {
                    let usage = usage_line_exec(sub, st.snapshot.is_some(), st.format.is_some(), true, false);
                    return Err(fail(CliErrorKind::UnexpectedValue, name, v, usage, false));
                },
                None => {
                    if st.dry_run {
                        return Err(
                            fail(CliErrorKind::DuplicateOption, name, empty_string(), default_usage_exec(sub), false),
                        );
                    }
                    st.dry_run = true;
                    proof {
                        assert(st.state() =~= ScanState { dry_run: true, ..old(st).state() });
                    }
                    return Ok(1);
                },
            }
        }
        return Err(unknown_long_exec(sub, st, name.as_str()));
    }
    if is_short_token(t) {
        let c = t.get_char(1);
        if c == 'h' {
            return Err(help_exec(sub, false));
        }
        return Err(unknown_short_exec(sub, c));
    }
    if bad {
        return Err(bad_kind_exec(sub, st, args, i));
    }
    match add_positional_exec(sub, st, t) {
        Ok(()) => Ok(1),
        Err(e) => Err(e),
    }
}

proof fn lemma_eq_split(s: Seq<char>, k: int)
    requires
        0 <= k <= s.len(),
        forall|j: int| 0 <= j < k ==> s[j] != '=',
        k < s.len() ==> s[k] == '=',
    ensures
        before_eq(s) == s.take(k),
        after_eq(s) == if k < s.len() {
            Some(s.skip(k + 1))
        } else {
            None::<Seq<char>>
        },
    decreases k,
{
    if k == 0 {
        if s.len() == 0 {
            assert(s.take(0) =~= s);
        } else {
            assert(s.take(0) =~= Seq::<char>::empty());
            assert(s.drop_first() =~= s.skip(1));
        }
    } else {
        let t = s.drop_first();
        assert forall|j: int| 0 <= j < k - 1 implies t[j] != '=' by {
            assert(t[j] == s[j + 1]);
        }
        lemma_eq_split(t, k - 1);
        assert(s.take(k) =~= seq![s[0]] + t.take(k - 1));
        if k < s.len() {
            assert(t.skip(k) =~= s.skip(k + 1));
        }
    }
}

/// Splits a long option token into its name and its inline value.
fn split_long(t: &str) -> (r: (String, Option<String>))
    requires
        is_long(t@),
    ensures
        r.0@ == long_name(t@),
        opt_view(r.1) == long_inline(t@),
{
    let n = t.unicode_len();
    let mut k: usize = 2;
    while k < n
        invariant
            n == t@.len(),
            2 <= k <= n,
            forall|j: int| 2 <= j < k ==> t@[j] != '=',
        ensures
            2 <= k <= n,
            forall|j: int| 2 <= j < k ==> t@[j] != '=',
            k < n ==> t@[k as int] == '=',
        decreases n - k,
    {
        if t.get_char(k) == '=' {
            break;
        }
        k = k + 1;
    }
    let ghost body = t@.skip(2);
    proof {
        assert forall|j: int| 0 <= j < k - 2 implies body[j] != '=' by {
            assert(body[j] == t@[j + 2]);
        }
        if k < n {
            assert(body[k - 2] == t@[k as int]);
        }
        lemma_eq_split(body, k - 2);
        assert(body.take(k - 2) =~= t@.subrange(2, k as int));
        assert(t@.subrange(0, k as int) =~= "--"@ + t@.subrange(2, k as int)) by {
            assert(t@[0] == '-' && t@[1] == '-');
            reveal_strlit("--");
        }
    }
    let name = String::from_str(t.substring_char(0, k));
    if k < n {
        proof {
            assert(body.skip(k - 2 + 1) =~= t@.subrange(k + 1, n as int));
        }
        (name, Some(String::from_str(t.substring_char(k + 1, n))))
    } else {
        (name, None)
    }
}

fn is_long_token(t: &str) -> (r: bool)
    ensures
        r == is_long(t@),
{
    t.unicode_len() > 2 && t.get_char(0) == '-' && t.get_char(1) == '-'
}

fn is_short_token(t: &str) -> (r: bool)
    ensures
        r == is_short(t@),
{
    t.unicode_len() > 1 && t.get_char(0) == '-'
}

/// The help of `cmd` (empty for the program itself); `long` asks for the
/// long form, which only `daemon` words differently.
pub open spec fn help_text(cmd: Seq<char>, long: bool) -> Seq<char> {
    if cmd == "daemon"@ {
        if long {
            "Run the scheduler daemon in the foreground. SIGINT (Ctrl-C) or SIGTERM stops scheduling and drains in-flight backups before exiting; a second signal during the drain force-exits immediately (exit code 130). See the README section \"Running as a systemd service\" for production use.\n\nUsage: restic-manager daemon\n\nOptions:\n  -h, --help\n          Print help (see a summary with '-h')\n"@
        } else {
            "Run the scheduler daemon\n\nUsage: restic-manager daemon\n\nOptions:\n  -h, --help  Print help (see more with '--help')\n"@
        }
    } else if cmd == "run"@ {
        "Run a backup job\n\nUsage: restic-manager run [OPTIONS] <NAME>\n\nArguments:\n  <NAME>  \n\nOptions:\n      --dry-run  Preview the backup without writing data; also skips pre/post-backup hooks\n  -h, --help     Print help\n"@
    } else if cmd == "restore"@ {
        "Restore from a backup job\n\nUsage: restic-manager restore [OPTIONS] --target <TARGET> <NAME>\n\nArguments:\n  <NAME>  \n\nOptions:\n      --snapshot <SNAPSHOT>  \n      --target <TARGET>      Directory to restore into (required, to avoid accidentally overwriting the current directory)\n  -h, --help                 Print help\n"@
    } else if cmd == "prune"@ {
        "Prune old snapshots for a job\n\nUsage: restic-manager prune <NAME>\n\nArguments:\n  <NAME>  \n\nOptions:\n  -h, --help  Print help\n"@
    } else if cmd == "list"@ {
        "List snapshots for a job\n\nUsage: restic-manager list [OPTIONS] <NAME>\n\nArguments:\n  <NAME>  \n\nOptions:\n      --format <FORMAT>  Output format, only 'json' supported. Defaults to plain text. [possible values: json]\n  -h, --help             Print help\n"@
    } else if cmd == "check"@ {
        "Check repository integrity for a job\n\nUsage: restic-manager check <NAME>\n\nArguments:\n  <NAME>  \n\nOptions:\n  -h, --help  Print help\n"@
    } else if cmd == "unlock"@ {
        "Unlock repository for a job\n\nUsage: restic-manager unlock <NAME>\n\nArguments:\n  <NAME>  \n\nOptions:\n  -h, --help  Print help\n"@
    } else if cmd == "jobs"@ {
        "List all jobs\n\nUsage: restic-manager jobs [OPTIONS]\n\nOptions:\n      --format <FORMAT>  Output format, only 'json' supported. Defaults to plain text. [possible values: json]\n  -h, --help             Print help\n"@
    } else if cmd == "repos"@ {
        "Usage: restic-manager repos [OPTIONS]\n\nOptions:\n      --format <FORMAT>  Output format, only 'json' supported. Defaults to plain text. [possible values: json]\n  -h, --help             Print help\n"@
    } else if cmd == "init"@ {
        "Initialize a repository\n\nUsage: restic-manager init <NAME>\n\nArguments:\n  <NAME>  \n\nOptions:\n  -h, --help  Print help\n"@
    } else if cmd == "init-exclude"@ {
        "Initialize or reset the exclude file with defaults\n\nUsage: restic-manager init-exclude\n\nOptions:\n  -h, --help  Print help\n"@
    } else if cmd == "tui"@ {
        "Open the interactive terminal dashboard\n\nUsage: restic-manager tui\n\nOptions:\n  -h, --help  Print help\n"@
    } else if cmd == "show"@ {
        "Show full details for a job or repository as JSON\n\nUsage: restic-manager show [OPTIONS] <KIND> <NAME>\n\nArguments:\n  <KIND>  [possible values: job, repo]\n  <NAME>  \n\nOptions:\n      --format <FORMAT>  Output format, only 'json' supported. Defaults to plain text. [possible values: json]\n  -h, --help             Print help\n"@
    } else if cmd == "help"@ {
        "Print this message or the help of the given subcommand(s)\n\nUsage: restic-manager help [COMMAND]...\n\nArguments:\n  [COMMAND]...  Print help for the subcommand(s)\n"@
    } else {
        "Manage restic backups with scheduling and notifications\n\nUsage: restic-manager <COMMAND>\n\nCommands:\n  run           Run a backup job\n  restore       Restore from a backup job\n  prune         Prune old snapshots for a job\n  list          List snapshots for a job\n  check         Check repository integrity for a job\n  unlock        Unlock repository for a job\n  daemon        Run the scheduler daemon\n  jobs          List all jobs\n  repos         \n  init          Initialize a repository\n  init-exclude  Initialize or reset the exclude file with defaults\n  tui           Open the interactive terminal dashboard\n  show          Show full details for a job or repository as JSON\n  help          Print this message or the help of the given subcommand(s)\n\nOptions:\n  -h, --help  Print help\n"@
    }
}

fn help_text_exec(cmd: &str, long: bool) -> (r: String)
    ensures
        r@ == help_text(cmd@, long),
{
    if str_eq(cmd, "daemon") {
        if long {
            String::from_str("Run the scheduler daemon in the foreground. SIGINT (Ctrl-C) or SIGTERM stops scheduling and drains in-flight backups before exiting; a second signal during the drain force-exits immediately (exit code 130). See the README section \"Running as a systemd service\" for production use.\n\nUsage: restic-manager daemon\n\nOptions:\n  -h, --help\n          Print help (see a summary with '-h')\n")
        } else {
            String::from_str("Run the scheduler daemon\n\nUsage: restic-manager daemon\n\nOptions:\n  -h, --help  Print help (see more with '--help')\n")
        }
    } else if str_eq(cmd, "run") {
        String::from_str("Run a backup job\n\nUsage: restic-manager run [OPTIONS] <NAME>\n\nArguments:\n  <NAME>  \n\nOptions:\n      --dry-run  Preview the backup without writing data; also skips pre/post-backup hooks\n  -h, --help     Print help\n")
    } else if str_eq(cmd, "restore") {
        String::from_str("Restore from a backup job\n\nUsage: restic-manager restore [OPTIONS] --target <TARGET> <NAME>\n\nArguments:\n  <NAME>  \n\nOptions:\n      --snapshot <SNAPSHOT>  \n      --target <TARGET>      Directory to restore into (required, to avoid accidentally overwriting the current directory)\n  -h, --help                 Print help\n")
    } else if str_eq(cmd, "prune") {
        String::from_str("Prune old snapshots for a job\n\nUsage: restic-manager prune <NAME>\n\nArguments:\n  <NAME>  \n\nOptions:\n  -h, --help  Print help\n")
    } else if str_eq(cmd, "list") {
        String::from_str("List snapshots for a job\n\nUsage: restic-manager list [OPTIONS] <NAME>\n\nArguments:\n  <NAME>  \n\nOptions:\n      --format <FORMAT>  Output format, only 'json' supported. Defaults to plain text. [possible values: json]\n  -h, --help             Print help\n")
    } else if str_eq(cmd, "check") {
        String::from_str("Check repository integrity for a job\n\nUsage: restic-manager check <NAME>\n\nArguments:\n  <NAME>  \n\nOptions:\n  -h, --help  Print help\n")
    } else if str_eq(cmd, "unlock") {
        String::from_str("Unlock repository for a job\n\nUsage: restic-manager unlock <NAME>\n\nArguments:\n  <NAME>  \n\nOptions:\n  -h, --help  Print help\n")
    } else if str_eq(cmd, "jobs") {
        String::from_str("List all jobs\n\nUsage: restic-manager jobs [OPTIONS]\n\nOptions:\n      --format <FORMAT>  Output format, only 'json' supported. Defaults to plain text. [possible values: json]\n  -h, --help             Print help\n")
    } else if str_eq(cmd, "repos") {
        String::from_str("Usage: restic-manager repos [OPTIONS]\n\nOptions:\n      --format <FORMAT>  Output format, only 'json' supported. Defaults to plain text. [possible values: json]\n  -h, --help             Print help\n")
    } else if str_eq(cmd, "init") {
        String::from_str("Initialize a repository\n\nUsage: restic-manager init <NAME>\n\nArguments:\n  <NAME>  \n\nOptions:\n  -h, --help  Print help\n")
    } else if str_eq(cmd, "init-exclude") {
        String::from_str("Initialize or reset the exclude file with defaults\n\nUsage: restic-manager init-exclude\n\nOptions:\n  -h, --help  Print help\n")
    } else if str_eq(cmd, "tui") {
        String::from_str("Open the interactive terminal dashboard\n\nUsage: restic-manager tui\n\nOptions:\n  -h, --help  Print help\n")
    } else if str_eq(cmd, "show") {
        String::from_str("Show full details for a job or repository as JSON\n\nUsage: restic-manager show [OPTIONS] <KIND> <NAME>\n\nArguments:\n  <KIND>  [possible values: job, repo]\n  <NAME>  \n\nOptions:\n      --format <FORMAT>  Output format, only 'json' supported. Defaults to plain text. [possible values: json]\n  -h, --help             Print help\n")
    } else if str_eq(cmd, "help") {
        String::from_str("Print this message or the help of the given subcommand(s)\n\nUsage: restic-manager help [COMMAND]...\n\nArguments:\n  [COMMAND]...  Print help for the subcommand(s)\n")
    } else {
        String::from_str("Manage restic backups with scheduling and notifications\n\nUsage: restic-manager <COMMAND>\n\nCommands:\n  run           Run a backup job\n  restore       Restore from a backup job\n  prune         Prune old snapshots for a job\n  list          List snapshots for a job\n  check         Check repository integrity for a job\n  unlock        Unlock repository for a job\n  daemon        Run the scheduler daemon\n  jobs          List all jobs\n  repos         \n  init          Initialize a repository\n  init-exclude  Initialize or reset the exclude file with defaults\n  tui           Open the interactive terminal dashboard\n  show          Show full details for a job or repository as JSON\n  help          Print this message or the help of the given subcommand(s)\n\nOptions:\n  -h, --help  Print help\n")
    }
}

fn is_subcommand_exec(s: &str) -> (b: bool)
    ensures
        b == is_subcommand(s@),
{
    str_eq(s, "run") || str_eq(s, "restore") || str_eq(s, "prune") || str_eq(s, "list") || str_eq(
        s,
        "check",
    ) || str_eq(s, "unlock") || str_eq(s, "daemon") || str_eq(s, "jobs") || str_eq(s, "repos")
        || str_eq(s, "init") || str_eq(s, "init-exclude") || str_eq(s, "tui") || str_eq(s, "show")
}

fn help_walk_exec(args: &Vec<String>) -> (e: CliError)
    requires
        args@.len() >= 2,
    ensures
        failure_of(e) == help_walk(views(args@).skip(2), 0, seq![]),
{
    let ghost rest = views(args@).skip(2);
    let mut cmd = empty_string();
    let mut i: usize = 2;
    while i < args.len()
        invariant
            2 <= i <= args@.len(),
            rest == views(args@).skip(2),
            rest.len() == args@.len() - 2,
            help_walk(rest, 0, seq![]) == help_walk(rest, i - 2, cmd@),
        decreases args@.len() - i,
    {
        let u = args[i].as_str();
        proof {
            assert(rest[i - 2] == u@);
        }
        if cmd.unicode_len() == 0 && (is_subcommand_exec(u) || str_eq(u, "help")) {
            cmd = String::from_str(u);
        } else {
            return fail(
                CliErrorKind::UnknownSubcommand,
                String::from_str(u),
                empty_string(),
                help_usage_exec(cmd.as_str()),
                false,
            );
        }
        i = i + 1;
    }
    help_exec(cmd.as_str(), true)
}

fn unknown_top_subcommand(u: &str) -> (e: CliError)
    ensures
        failure_of(e) == (CliErrorKind::UnknownSubcommand, u@, Seq::<char>::empty(), top_usage(), false, subcommand_hints()),
{
    fail_hinted(
        CliErrorKind::UnknownSubcommand,
        String::from_str(u),
        empty_string(),
        String::from_str("restic-manager <COMMAND>"),
        false,
        subcommand_hints_exec(),
    )
}

fn top_failure(kind: CliErrorKind, arg: String) -> (e: CliError)
    ensures
        failure_of(e) == (kind, arg@, Seq::<char>::empty(), top_usage(), false, Seq::<(Seq<char>, Seq<char>)>::empty()),
{
    fail(kind, arg, empty_string(), String::from_str("restic-manager <COMMAND>"), false)
}

impl Cli {
    /// Parses a command line, program name first, the way the command
    /// line interface reads it: a subcommand, then its positional
    /// arguments and options in any order (`--name value` or
    /// `--name=value`; after `--` everything is positional). Help requests
    /// come back as errors of kind `Help`.
    pub fn try_parse_from(args: &Vec<String>) -> (r: Result<Cli, CliError>)
        ensures
            match r {
                Ok(cli) => parse_args(views(args@)) matches Ok((sub, st)) && denotes(cli, sub, st),
                Err(e) => parse_args(views(args@)) == Err::<(Seq<char>, ScanState), Failure>(
                    failure_of(e),
                ),
            },
    {
        if args.len() < 2 {
            return Err(fail(CliErrorKind::MissingSubcommand, empty_string(), empty_string(), empty_string(), false));
        }
        let sub = args[1].as_str();
        let ghost argv = views(args@);
        let ghost toks = argv.skip(2);
        proof {
            assert(argv[1] == sub@);
        }
        if str_eq(sub, "--") {
            if args.len() == 2 {
                return Err(
                    fail(CliErrorKind::MissingSubcommand, empty_string(), empty_string(), empty_string(), false),
                );
            }
            let u = args[2].as_str();
            proof {
                assert(argv[2] == u@);
            }
            if is_subcommand_exec(u) || str_eq(u, "help") {
                return Err(top_failure(CliErrorKind::UnnecessaryDoubleDash, String::from_str(u)));
            }
            return Err(unknown_top_subcommand(u));
        }
        if str_eq(sub, "help") {
            return Err(help_walk_exec(args));
        }
        if !is_subcommand_exec(sub) {
            proof {
                reveal_strlit("");
                assert(""@ =~= Seq::<char>::empty());
            }
            if is_long_token(sub) {
                let (name, inline) = split_long(sub);
                if str_eq(name.as_str(), "--help") {
                    return match inline {
                        Some(v) => Err(
                            fail(
                                CliErrorKind::UnexpectedValue,
                                name,
                                v,
                                String::from_str("restic-manager --help <COMMAND>"),
                                false,
                            ),
                        ),
                        None => Err(help_exec("", true)),
                    };
                }
                return Err(
                    fail_hinted(
                        CliErrorKind::UnknownArgument,
                        name,
                        empty_string(),
                        String::from_str("restic-manager <COMMAND>"),
                        false,
                        top_hints_exec(args),
                    ),
                );
            }
            if is_short_token(sub) {
                let c = sub.get_char(1);
                if c == 'h' {
                    return Err(help_exec("", false));
                }
                return Err(top_failure(CliErrorKind::UnknownArgument, dash_char(c)));
            }
            return Err(unknown_top_subcommand(sub));
        }
        let mut st = Scanned {
            positionals: Vec::new(),
            snapshot: None,
            target: None,
            format: None,
            dry_run: false,
            raw: false,
        };
        proof {
            assert(st.state() =~= empty_state());
        }
        let mut i: usize = 2;
        while i < args.len()
            invariant
                2 <= i <= args@.len(),
                argv == views(args@),
                toks == argv.skip(2),
                toks.len() == args@.len() - 2,
                sub@ == argv[1],
                argv.len() >= 2,
                is_subcommand(sub@),
                sub@ != "--"@,
                sub@ != "help"@,
                scan(sub@, toks, 0, empty_state()) == scan(sub@, toks, i - 2, st.state()),
                st.positionals@.len() <= positional_count(sub@),
                sub@ == "show"@ && st.positionals@.len() > 0 ==> (st.positionals@[0]@ == "job"@
                    || st.positionals@[0]@ == "repo"@),
            decreases args@.len() - i,
        {
            let ghost before = st.state();
            match step_exec(sub, args, i, &mut st) {
                Ok(n) => {
                    proof {
                        assert(views(st.positionals@).len() == st.positionals@.len());
                        if st.positionals@.len() > 0 {
                            assert(views(st.positionals@)[0] == st.positionals@[0]@);
                            if before.positionals.len() > 0 {
                                assert(views(st.positionals@)[0] == before.positionals[0]);
                            }
                        }
                    }
                    i = i + n;
                },
                Err(e) => {
                    return Err(e);
                },
            }
        }
        let missing = missing_text_exec(sub, &st);
        if missing.unicode_len() > 0 {
            let usage = smart_usage_exec(sub, &st, false);
            return Err(fail(CliErrorKind::MissingArgument, missing, empty_string(), usage, false));
        }
        proof {
            reveal_strlit("<NAME>");
            reveal_strlit("<KIND>\n  <NAME>");
            reveal_strlit("--target <TARGET>");
            assert(st.state().positionals.len() == st.positionals@.len());
            assert(views(st.positionals@).len() == st.positionals@.len());
            assert(forall|k: int| 0 <= k < st.positionals@.len() ==> #[trigger] views(st.positionals@)[k] == st.positionals@[k]@);
        }
        let command = if str_eq(sub, "run") {
            Commands::Run { name: copy_string(&st.positionals[0]), dry_run: st.dry_run }
        } else if str_eq(sub, "restore") {
            let target = match &st.target {
                Some(t) => copy_string(t),
                None => String::new(),
            };
            Commands::Restore {
                name: copy_string(&st.positionals[0]),
                snapshot: st.snapshot,
                target,
            }
        } else if str_eq(sub, "prune") {
            Commands::Prune { name: copy_string(&st.positionals[0]) }
        } else if str_eq(sub, "list") {
            Commands::List { name: copy_string(&st.positionals[0]), format: st.format }
        } else if str_eq(sub, "check") {
            Commands::Check { name: copy_string(&st.positionals[0]) }
        } else if str_eq(sub, "unlock") {
            Commands::Unlock { name: copy_string(&st.positionals[0]) }
        } else if str_eq(sub, "daemon") {
            Commands::Daemon
        } else if str_eq(sub, "jobs") {
            Commands::Jobs { format: st.format }
        } else if str_eq(sub, "repos") {
            Commands::Repos { format: st.format }
        } else if str_eq(sub, "init") {
            Commands::Init { name: copy_string(&st.positionals[0]) }
        } else if str_eq(sub, "init-exclude") {
            Commands::InitExclude
        } else if str_eq(sub, "tui") {
            Commands::Tui
        } else {
            let kind = if str_eq(st.positionals[0].as_str(), "job") {
                ShowKind::Job
            } else {
                ShowKind::Repo
            };
            proof {
                if kind == ShowKind::Repo {
                    reveal_strlit("job");
                    reveal_strlit("repo");
                    assert("job"@ != "repo"@) by {
                        assert("job"@.len() != "repo"@.len());
                    }
                }
            }
            Commands::Show { kind, name: copy_string(&st.positionals[1]), format: st.format }
        };
        Ok(Cli { command })
    }
}

/// The usage block of an error message.
pub open spec fn usage_block(usage: Seq<char>) -> Seq<char> {
    "Usage: "@ + usage + "\n\n"@
}

/// The closing line of an error message.
pub open spec fn more_info() -> Seq<char> {
    "For more information, try '--help'.\n"@
}

/// The usage block and closing line of an unknown-subcommand message: the
/// `help` subcommand has no `--help` of its own, so its message points to
/// none.
pub open spec fn unknown_tail(usage: Seq<char>) -> Seq<char> {
    if usage == "restic-manager help [COMMAND]..."@ {
        "Usage: "@ + usage + "\n"@
    } else {
        usage_block(usage) + more_info()
    }
}

/// The allowed values of an argument, as error messages list them.
pub open spec fn possible_values(arg: Seq<char>) -> Seq<char> {
    if arg == "--format <FORMAT>"@ {
        "  [possible values: json]\n"@
    } else if arg == "<KIND>"@ {
        "  [possible values: job, repo]\n"@
    } else {
        seq![]
    }
}

/// The text printed for a command-line error or help request.
pub open spec fn cli_error_text(
    kind: CliErrorKind,
    arg: Seq<char>,
    value: Seq<char>,
    usage: Seq<char>,
    detail: bool,
) -> Seq<char> {
    match kind {
        CliErrorKind::Help => help_text(arg, detail),
        CliErrorKind::MissingSubcommand => help_text(seq![], false),
        CliErrorKind::UnknownSubcommand => "error: unrecognized subcommand '"@ + arg + "'\n\n"@
            + unknown_tail(usage),
        CliErrorKind::UnknownArgument | CliErrorKind::UnexpectedArgument => "error: unexpected argument '"@
            + arg + "' found\n\n"@ + (if detail {
            "  tip: to pass '"@ + arg + "' as a value, use '-- "@ + arg + "'\n\n"@
        } else {
            seq![]
        }) + usage_block(usage) + more_info(),
        CliErrorKind::UnnecessaryDoubleDash => "error: unexpected argument '"@ + arg
            + "' found\n\n  tip: subcommand '"@ + arg + "' exists; to use it, remove the '--' before it\n\n"@
            + usage_block(usage) + more_info(),
        CliErrorKind::MissingValue => "error: a value is required for '"@ + arg
            + "' but none was supplied\n"@ + possible_values(arg) + "\n"@ + more_info(),
        CliErrorKind::DuplicateOption => "error: the argument '"@ + arg
            + "' cannot be used multiple times\n\n"@ + usage_block(usage) + more_info(),
        CliErrorKind::InvalidValue => "error: invalid value '"@ + value + "' for '"@ + arg + "'\n"@
            + possible_values(arg) + "\n"@ + more_info(),
        CliErrorKind::UnexpectedValue => "error: unexpected value '"@ + value + "' for '"@ + arg
            + "' found; no more were expected\n\n"@ + usage_block(usage) + more_info(),
        CliErrorKind::MissingArgument => "error: the following required arguments were not provided:\n  "@
            + arg + "\n\n"@ + usage_block(usage) + more_info(),
    }
}

/// What is compared with the hints of an error.
pub open spec fn typed_text(kind: CliErrorKind, arg: Seq<char>, value: Seq<char>) -> Seq<char> {
    match kind {
        CliErrorKind::InvalidValue => value,
        CliErrorKind::UnknownArgument => if is_long(arg) {
            arg.skip(2)
        } else {
            arg
        },
        _ => arg,
    }
}

/// The names, each in single quotes, separated by commas.
pub open spec fn quoted(names: Seq<Seq<char>>) -> Seq<char>
    decreases names.len(),
{
    if names.len() == 0 {
        seq![]
    } else if names.len() == 1 {
        "'"@ + names[0] + "'"@
    } else {
        quoted(names.drop_last()) + ", '"@ + names.last() + "'"@
    }
}

/// What the similar hints of an unknown option come to, read in the order
/// picked: the last similar option of the command itself, if any; else,
/// among the subcommands offering a similar option, the one named first,
/// with the lowest position of its hints and its most similar option.
pub open spec fn select_option(hints: Seq<(Seq<char>, Seq<char>)>, pick: Seq<int>) -> (Option<int>, Option<(int, int)>)
    decreases pick.len(),
{
    if pick.len() == 0 {
        (None, None)
    } else {
        let (own, cur) = select_option(hints, pick.drop_last());
        let k = pick.last();
        if !is_subcommand(hints[k].1) {
            (Some(k), cur)
        } else {
            match cur {
                None => (own, Some((k, k))),
                Some((m, b)) => if hints[k].1 == hints[b].1 {
                    (own, Some((if k < m { k } else { m }, k)))
                } else if k < m {
                    (own, Some((k, k)))
                } else {
                    (own, cur)
                },
            }
        }
    }
}

/// The hint names at the positions picked, in the order picked.
pub open spec fn picked_names(hints: Seq<(Seq<char>, Seq<char>)>, pick: Seq<int>) -> Seq<Seq<char>> {
    pick.map_values(|k: int| hints[k].0)
}

/// The text printed for an error when the hints at positions `pick` (least
/// similar first) were found similar to what was typed: an unknown
/// subcommand lists them all, an unknown option or a refused value offers
/// the most similar one, and an offered option also shapes the usage line.
/// With nothing picked, or for other kinds, the text is the plain one.
pub open spec fn suggested_text(f: Failure, pick: Seq<int>) -> Seq<char> {
    let (kind, arg, value, usage, detail, hints) = f;
    if pick.len() == 0 {
        cli_error_text(kind, arg, value, usage, detail)
    } else {
        let best = hints[pick.last()];
        match kind {
            CliErrorKind::UnknownSubcommand => "error: unrecognized subcommand '"@ + arg + "'\n\n  tip: "@
                + (if pick.len() == 1 {
                "a similar subcommand exists: "@
            } else {
                "some similar subcommands exist: "@
            }) + quoted(picked_names(hints, pick)) + "\n\n"@ + unknown_tail(usage),
            CliErrorKind::UnknownArgument => match select_option(hints, pick) {
                (Some(k), _) => "error: unexpected argument '"@ + arg
                    + "' found\n\n  tip: a similar argument exists: '--"@ + hints[k].0 + "'\n\n"@
                    + usage_block(hints[k].1) + more_info(),
                (None, Some((_, b))) => "error: unexpected argument '"@ + arg + "' found\n\n  tip: '"@
                    + hints[b].1 + " --"@ + hints[b].0 + "' exists\n\n"@ + usage_block(usage)
                    + more_info(),
                (None, None) => cli_error_text(kind, arg, value, usage, detail),
            },
            CliErrorKind::InvalidValue => "error: invalid value '"@ + value + "' for '"@ + arg + "'\n"@
                + possible_values(arg) + "\n  tip: a similar value exists: '"@ + best.0 + "'\n\n"@
                + more_info(),
            _ => cli_error_text(kind, arg, value, usage, detail),
        }
    }
}

fn select_option_exec(hints: &Vec<(String, String)>, pick: &Vec<usize>) -> (r: (Option<usize>, Option<(usize, usize)>))
    requires
        forall|i: int| 0 <= i < pick@.len() ==> pick@[i] < hints@.len(),
    ensures
        ({
            let (own, cur) = select_option(hints_view(hints@), pick@.map_values(|k: usize| k as int));
            &&& own == match r.0 {
                Some(k) => Some(k as int),
                None => None::<int>,
            }
            &&& cur == match r.1 {
                Some((m, b)) => Some((m as int, b as int)),
                None => None::<(int, int)>,
            }
        }),
        r.0 matches Some(k) ==> k < hints@.len(),
        r.1 matches Some((m, b)) ==> b < hints@.len(),
{
    let ghost hv = hints_view(hints@);
    let ghost pv = pick@.map_values(|k: usize| k as int);
    let mut own: Option<usize> = None;
    let mut cur: Option<(usize, usize)> = None;
    let mut i: usize = 0;
    while i < pick.len()
        invariant
            i <= pick@.len(),
            hv == hints_view(hints@),
            pv == pick@.map_values(|k: usize| k as int),
            forall|j: int| 0 <= j < pick@.len() ==> pick@[j] < hints@.len(),
            own matches Some(k) ==> k < hints@.len(),
            cur matches Some((m, b)) ==> b < hints@.len() && m < hints@.len(),
            ({
                let (o, c) = select_option(hv, pv.take(i as int));
                &&& o == match own {
                    Some(k) => Some(k as int),
                    None => None::<int>,
                }
                &&& c == match cur {
                    Some((m, b)) => Some((m as int, b as int)),
                    None => None::<(int, int)>,
                }
            }),
        decreases pick@.len() - i,
    {
        let k = pick[i];
        proof {
            assert(pv.take(i as int + 1).drop_last() =~= pv.take(i as int));
            assert(pv.take(i as int + 1).last() == k as int);
            assert(hv[k as int].1 == hints@[k as int].1@);
        }
        if !is_subcommand_exec(hints[k].1.as_str()) {
            own = Some(k);
        } else {
            match cur {
                None => {
                    cur = Some((k, k));
                },
                Some((m, b)) => {
                    proof {
                        assert(hv[b as int].1 == hints@[b as int].1@);
                    }
                    if str_eq(hints[k].1.as_str(), hints[b].1.as_str()) {
                        cur = Some((if k < m { k } else { m }, k));
                    } else if k < m {
                        cur = Some((k, k));
                    }
                },
            }
        }
        i = i + 1;
    }
    proof {
        assert(pv.take(pick@.len() as int) =~= pv);
    }
    (own, cur)
}

fn push_usage_block(m: &mut String, usage: &str)
    ensures
        final(m)@ == old(m)@ + usage_block(usage@) + more_info(),
{
    m.append("Usage: ");
    m.append(usage);
    m.append("\n\n");
    m.append("For more information, try '--help'.\n");
    assert(final(m)@ =~= old(m)@ + usage_block(usage@) + more_info());
}

fn possible_values_exec(arg: &str) -> (r: &'static str)
    ensures
        r@ == possible_values(arg@),
{
    if str_eq(arg, "--format <FORMAT>") {
        "  [possible values: json]\n"
    } else if str_eq(arg, "<KIND>") {
        "  [possible values: job, repo]\n"
    } else {
        proof {
            reveal_strlit("");
        }
        ""
    }
}

impl CliError {
    /// True when the error only asks for help, which is not a failure.
    pub fn is_help(&self) -> (r: bool)
        ensures
            r == (self.kind == CliErrorKind::Help),
    {
        self.kind == CliErrorKind::Help
    }

    /// The text to print when the hints at positions `similar` (least
    /// similar first) were found similar to what was typed.
    pub fn message_with(&self, similar: &Vec<usize>) -> (r: String)
        requires
            forall|i: int| 0 <= i < similar@.len() ==> similar@[i] < self.hints@.len(),
        ensures
            r@ == suggested_text(failure_of(*self), similar@.map_values(|k: usize| k as int)),
    {
        let ghost pick = similar@.map_values(|k: usize| k as int);
        let ghost hv = hints_view(self.hints@);
        if similar.len() == 0 {
            return self.message();
        }
        let last = similar[similar.len() - 1];
        let a = self.arg.as_str();
        proof {
            assert(pick.last() == last as int);
            assert(hv[last as int] == (self.hints@[last as int].0@, self.hints@[last as int].1@));
        }
        match self.kind {
            CliErrorKind::UnknownSubcommand => {
                let mut m = concat3("error: unrecognized subcommand '", a, "'\n\n  tip: ");
                let ghost head = m@;
                if similar.len() == 1 {
                    m.append("a similar subcommand exists: ");
                } else {
                    m.append("some similar subcommands exist: ");
                }
                let ghost lead = m@;
                let mut i: usize = 0;
                while i < similar.len()
                    invariant
                        i <= similar@.len(),
                        pick == similar@.map_values(|k: usize| k as int),
                        hv == hints_view(self.hints@),
                        forall|j: int| 0 <= j < similar@.len() ==> similar@[j] < self.hints@.len(),
                        m@ == lead + quoted(picked_names(hv, pick.take(i as int))),
                    decreases similar@.len() - i,
                {
                    let k = similar[i];
                    let ghost before = m@;
                    if i > 0 {
                        m.append(", ");
                    }
                    m.append("'");
                    m.append(self.hints[k].0.as_str());
                    m.append("'");
                    proof {
                        let names = picked_names(hv, pick.take(i as int + 1));
                        assert(names.drop_last() =~= picked_names(hv, pick.take(i as int)));
                        assert(names.last() == self.hints@[k as int].0@);
                        if i == 0 {
                            assert(names.len() == 1);
                            assert(m@ =~= lead + quoted(names));
                        } else {
                            reveal_strlit(", '");
                            reveal_strlit(", ");
                            reveal_strlit("'");
                            assert(", '"@ =~= ", "@ + "'"@);
                            assert(names.len() >= 2);
                            assert(m@ =~= before + ", "@ + "'"@ + self.hints@[k as int].0@ + "'"@);
                            assert(m@ =~= lead + quoted(names));
                        }
                    }
                    i = i + 1;
                }
                proof {
                    assert(pick.take(similar@.len() as int) =~= pick);
                }
                let ghost listed = m@;
                m.append("\n\n");
                if str_eq(self.usage.as_str(), "restic-manager help [COMMAND]...") {
                    m.append("Usage: ");
                    m.append(self.usage.as_str());
                    m.append("\n");
                } else {
                    push_usage_block(&mut m, self.usage.as_str());
                }
                proof {
                    assert(lead =~= head + (if pick.len() == 1 {
                        "a similar subcommand exists: "@
                    } else {
                        "some similar subcommands exist: "@
                    }));
                }
                m
            },
            CliErrorKind::UnknownArgument => {
                let (own, cur) = select_option_exec(&self.hints, similar);
                match (own, cur) {
                    (Some(k), _) => {
                        let mut m = concat3(
                            "error: unexpected argument '",
                            a,
                            "' found\n\n  tip: a similar argument exists: '--",
                        );
                        m.append(self.hints[k].0.as_str());
                        m.append("'\n\n");
                        push_usage_block(&mut m, self.hints[k].1.as_str());
                        m
                    },
                    (None, Some((_, b))) => {
                        let mut m = concat3("error: unexpected argument '", a, "' found\n\n  tip: '");
                        m.append(self.hints[b].1.as_str());
                        m.append(" --");
                        m.append(self.hints[b].0.as_str());
                        m.append("' exists\n\n");
                        push_usage_block(&mut m, self.usage.as_str());
                        m
                    },
                    (None, None) => self.message(),
                }
            },
            CliErrorKind::InvalidValue => {
                let mut m = concat3("error: invalid value '", self.value.as_str(), "' for '");
                m.append(a);
                m.append("'\n");
                m.append(possible_values_exec(a));
                m.append("\n  tip: a similar value exists: '");
                m.append(self.hints[last].0.as_str());
                m.append("'\n\n");
                m.append("For more information, try '--help'.\n");
                m
            },
            _ => self.message(),
        }
    }

    /// The text compared with the hints: the unknown subcommand,
    /// the unknown long option without its dashes, or the refused value.
    pub fn typed(&self) -> (r: String)
        ensures
            r@ == typed_text(self.kind, self.arg@, self.value@),
    {
        match self.kind {
            CliErrorKind::InvalidValue => String::from_str(self.value.as_str()),
            CliErrorKind::UnknownArgument => {
                if is_long_token(self.arg.as_str()) {
                    let n = self.arg.unicode_len();
                    String::from_str(self.arg.as_str().substring_char(2, n))
                } else {
                    String::from_str(self.arg.as_str())
                }
            },
            _ => String::from_str(self.arg.as_str()),
        }
    }

    /// The text to print: the help asked for, or the error message with
    /// the usage line and the pointer to `--help`.
    pub fn message(&self) -> (r: String)
        ensures
            r@ == cli_error_text(self.kind, self.arg@, self.value@, self.usage@, self.detail),
    {
        let a = self.arg.as_str();
        let v = self.value.as_str();
        let u = self.usage.as_str();
        match self.kind {
            CliErrorKind::Help => help_text_exec(a, self.detail),
            CliErrorKind::MissingSubcommand => {
                proof {
                    reveal_strlit("");
                    assert(""@ =~= Seq::<char>::empty());
                }
                help_text_exec("", false)
            },
            CliErrorKind::UnknownSubcommand => {
                let mut m = concat3("error: unrecognized subcommand '", a, "'\n\n");
                if str_eq(u, "restic-manager help [COMMAND]...") {
                    m.append("Usage: ");
                    m.append(u);
                    m.append("\n");
                } else {
                    push_usage_block(&mut m, u);
                }
                m
            },
            CliErrorKind::UnknownArgument | CliErrorKind::UnexpectedArgument => {
                let mut m = concat3("error: unexpected argument '", a, "' found\n\n");
                let ghost head = m@;
                if self.detail {
                    m.append("  tip: to pass '");
                    m.append(a);
                    m.append("' as a value, use '-- ");
                    m.append(a);
                    m.append("'\n\n");
                }
                let ghost mid = m@;
                push_usage_block(&mut m, u);
                proof {
                    assert(mid =~= head + (if self.detail {
                        "  tip: to pass '"@ + a@ + "' as a value, use '-- "@ + a@ + "'\n\n"@
                    } else {
                        seq![]
                    }));
                }
                m
            },
            CliErrorKind::UnnecessaryDoubleDash => {
                let mut m = concat3("error: unexpected argument '", a, "' found\n\n  tip: subcommand '");
                m.append(a);
                m.append("' exists; to use it, remove the '--' before it\n\n");
                push_usage_block(&mut m, u);
                m
            },
            CliErrorKind::MissingValue => {
                let mut m = concat3("error: a value is required for '", a, "' but none was supplied\n");
                m.append(possible_values_exec(a));
                m.append("\n");
                m.append("For more information, try '--help'.\n");
                m
            },
            CliErrorKind::DuplicateOption => {
                let mut m = concat3("error: the argument '", a, "' cannot be used multiple times\n\n");
                push_usage_block(&mut m, u);
                m
            },
            CliErrorKind::InvalidValue => {
                let mut m = concat3("error: invalid value '", v, "' for '");
                m.append(a);
                m.append("'\n");
                m.append(possible_values_exec(a));
                m.append("\n");
                m.append("For more information, try '--help'.\n");
                m
            },
            CliErrorKind::UnexpectedValue => {
                let mut m = concat3("error: unexpected value '", v, "' for '");
                m.append(a);
                m.append("' found; no more were expected\n\n");
                push_usage_block(&mut m, u);
                m
            },
            CliErrorKind::MissingArgument => {
                let mut m = concat3("error: the following required arguments were not provided:\n  ", a, "\n\n");
                push_usage_block(&mut m, u);
                m
            },
        }
    }
}


proof fn lemma_words_known()
    ensures
        "run"@ =~= seq!['r', 'u', 'n'],
        "restore"@ =~= seq!['r', 'e', 's', 't', 'o', 'r', 'e'],
        "prune"@ =~= seq!['p', 'r', 'u', 'n', 'e'],
        "list"@ =~= seq!['l', 'i', 's', 't'],
        "check"@ =~= seq!['c', 'h', 'e', 'c', 'k'],
        "unlock"@ =~= seq!['u', 'n', 'l', 'o', 'c', 'k'],
        "daemon"@ =~= seq!['d', 'a', 'e', 'm', 'o', 'n'],
        "jobs"@ =~= seq!['j', 'o', 'b', 's'],
        "repos"@ =~= seq!['r', 'e', 'p', 'o', 's'],
        "init"@ =~= seq!['i', 'n', 'i', 't'],
        "init-exclude"@ =~= seq!['i', 'n', 'i', 't', '-', 'e', 'x', 'c', 'l', 'u', 'd', 'e'],
        "tui"@ =~= seq!['t', 'u', 'i'],
        "show"@ =~= seq!['s', 'h', 'o', 'w'],
        "help"@ =~= seq!['h', 'e', 'l', 'p'],
        "--"@ =~= seq!['-', '-'],
{
    reveal_strlit("run");
    reveal_strlit("restore");
    reveal_strlit("prune");
    reveal_strlit("list");
    reveal_strlit("check");
    reveal_strlit("unlock");
    reveal_strlit("daemon");
    reveal_strlit("jobs");
    reveal_strlit("repos");
    reveal_strlit("init");
    reveal_strlit("init-exclude");
    reveal_strlit("tui");
    reveal_strlit("show");
    reveal_strlit("help");
    reveal_strlit("--");
}

/// The word of a subcommand, as the command line spells it.
pub open spec fn command_word(c: Commands) -> Seq<char> {
    match c {
        Commands::Run { .. } => "run"@,
        Commands::Restore { .. } => "restore"@,
        Commands::Prune { .. } => "prune"@,
        Commands::List { .. } => "list"@,
        Commands::Check { .. } => "check"@,
        Commands::Unlock { .. } => "unlock"@,
        Commands::Daemon => "daemon"@,
        Commands::Jobs { .. } => "jobs"@,
        Commands::Repos { .. } => "repos"@,
        Commands::Init { .. } => "init"@,
        Commands::InitExclude => "init-exclude"@,
        Commands::Tui => "tui"@,
        Commands::Show { .. } => "show"@,
    }
}

/// A command line that parses names its subcommand by the word right after
/// the program name, and the command it parses to is the one of that word:
/// each word gives its own command (`prune` gives `Prune`, `check` gives
/// `Check`, …), so two lines whose words differ never give the same kind
/// of command.
pub proof fn lemma_subcommand_word(args: Seq<Seq<char>>, cli: Cli)
    requires
        parse_args(args) matches Ok((sub, st)) && denotes(cli, sub, st),
    ensures
        args.len() >= 2,
        command_word(cli.command) == args[1],
        args[1] == "run"@ <==> cli.command is Run,
        args[1] == "restore"@ <==> cli.command is Restore,
        args[1] == "prune"@ <==> cli.command is Prune,
        args[1] == "list"@ <==> cli.command is List,
        args[1] == "check"@ <==> cli.command is Check,
        args[1] == "unlock"@ <==> cli.command is Unlock,
        args[1] == "daemon"@ <==> cli.command is Daemon,
        args[1] == "jobs"@ <==> cli.command is Jobs,
        args[1] == "repos"@ <==> cli.command is Repos,
        args[1] == "init"@ <==> cli.command is Init,
        args[1] == "init-exclude"@ <==> cli.command is InitExclude,
        args[1] == "tui"@ <==> cli.command is Tui,
        args[1] == "show"@ <==> cli.command is Show,
{
    lemma_words_known();
}

/// A line of the program name, a subcommand that takes one name, and a
/// name that is not an option parses to that subcommand with that name:
/// `prune home` is `Prune { name: "home" }`, `check home` is
/// `Check { name: "home" }`, and likewise for `run`, `list`, `unlock` and
/// `init` (with no `--dry-run` and no `--format`).
pub proof fn lemma_name_only_line(prog: Seq<char>, word: Seq<char>, name: Seq<char>, cli: Cli)
    requires
        word == "run"@ || word == "prune"@ || word == "list"@ || word == "check"@ || word
            == "unlock"@ || word == "init"@,
        !(name.len() > 1 && name[0] == '-'),
    ensures
        parse_args(seq![prog, word, name]) is Ok,
        parse_args(seq![prog, word, name]) matches Ok((sub, st)) && (denotes(cli, sub, st) ==> {
            &&& command_word(cli.command) == word
            &&& match cli.command {
                Commands::Run { name: n, dry_run } => n@ == name && !dry_run,
                Commands::Prune { name: n } => n@ == name,
                Commands::List { name: n, format } => n@ == name && format is None,
                Commands::Check { name: n } => n@ == name,
                Commands::Unlock { name: n } => n@ == name,
                Commands::Init { name: n } => n@ == name,
                _ => false,
            }
        }),
{
    lemma_words_known();
    let args = seq![prog, word, name];
    let toks = args.skip(2);
    assert(toks =~= seq![name]);
    assert(is_subcommand(word));
    assert(positional_count(word) == 1);
    assert(!is_long(name) && !is_short(name));
    assert(name != "--"@);
    let st1 = ScanState { positionals: seq![name], ..empty_state() };
    assert(empty_state().positionals.push(name) =~= seq![name]);
    assert(step(word, toks, 0, empty_state()) == Ok::<(int, ScanState), Failure>((1, st1)));
    assert(scan(word, toks, 1, st1) == Ok::<ScanState, Failure>(st1));
    assert(scan(word, toks, 0, empty_state()) == Ok::<ScanState, Failure>(st1));
    assert(missing_positionals(word, st1) =~= Seq::<char>::empty());
    assert(finish(word, st1) == Ok::<ScanState, Failure>(st1));
    assert(parse_args(args) == Ok::<(Seq<char>, ScanState), Failure>((word, st1)));
    if denotes(cli, word, st1) {
        lemma_subcommand_word(args, cli);
    }
}


proof fn lemma_plain_long(t: Seq<char>)
    requires
        t.len() > 2,
        t[0] == '-',
        t[1] == '-',
        forall|i: int| 0 <= i < t.len() ==> t[i] != '=',
    ensures
        is_long(t),
        long_name(t) == t,
        long_inline(t) is None,
{
    let body = t.skip(2);
    assert forall|j: int| 0 <= j < body.len() implies body[j] != '=' by {
        assert(body[j] == t[j + 2]);
    }
    lemma_eq_split(body, body.len() as int);
    assert(body.take(body.len() as int) =~= body);
    reveal_strlit("--");
    assert("--"@ + body =~= t);
}

/// `name` is an ordinary argument, not an option or `--`.
pub open spec fn plain(name: Seq<char>) -> bool {
    !(name.len() > 1 && name[0] == '-')
}

/// `run <name> --dry-run` is a dry run of that job.
pub proof fn lemma_dry_run_line(prog: Seq<char>, name: Seq<char>, cli: Cli)
    requires
        plain(name),
    ensures
        parse_args(seq![prog, "run"@, name, "--dry-run"@]) matches Ok((sub, st)) && (denotes(cli, sub, st)
            ==> (cli.command matches Commands::Run { name: n, dry_run } && n@ == name && dry_run)),
{
    lemma_words_known();
    lemma_option_names_distinct();
    reveal_strlit("--dry-run");
    lemma_plain_long("--dry-run"@);
    reveal_strlit("--help");
    assert("--dry-run"@[2] != "--help"@[2]);
    assert("--dry-run"@ != "--help"@);
    let args = seq![prog, "run"@, name, "--dry-run"@];
    let toks = args.skip(2);
    assert(toks =~= seq![name, "--dry-run"@]);
    let st1 = ScanState { positionals: seq![name], ..empty_state() };
    let st2 = ScanState { dry_run: true, ..st1 };
    assert(empty_state().positionals.push(name) =~= seq![name]);
    assert(step("run"@, toks, 0, empty_state()) == Ok::<(int, ScanState), Failure>((1, st1)));
    assert(step("run"@, toks, 1, st1) == Ok::<(int, ScanState), Failure>((1, st2)));
    assert(scan("run"@, toks, 2, st2) == Ok::<ScanState, Failure>(st2));
    assert(scan("run"@, toks, 1, st1) == Ok::<ScanState, Failure>(st2));
    assert(scan("run"@, toks, 0, empty_state()) == Ok::<ScanState, Failure>(st2));
    assert(missing_text("run"@, st2) =~= Seq::<char>::empty());
    assert(parse_args(args) == Ok::<(Seq<char>, ScanState), Failure>(("run"@, st2)));
}

/// `restore <name> --target <dir>` restores that job into that directory,
/// from the latest snapshot (no `--snapshot`).
pub proof fn lemma_restore_line(prog: Seq<char>, name: Seq<char>, target: Seq<char>, cli: Cli)
    requires
        plain(name),
        plain(target),
        target != "--"@,
    ensures
        parse_args(seq![prog, "restore"@, name, "--target"@, target]) matches Ok((sub, st)) && (denotes(
            cli,
            sub,
            st,
        ) ==> (cli.command matches Commands::Restore { name: n, snapshot, target: t } && n@ == name
            && t@ == target && snapshot is None)),
{
    lemma_words_known();
    lemma_option_names_distinct();
    reveal_strlit("--target");
    lemma_plain_long("--target"@);
    reveal_strlit("--help");
    assert("--target"@[2] != "--help"@[2]);
    assert("--target"@ != "--help"@);
    let args = seq![prog, "restore"@, name, "--target"@, target];
    let toks = args.skip(2);
    assert(toks =~= seq![name, "--target"@, target]);
    let st1 = ScanState { positionals: seq![name], ..empty_state() };
    let st2 = ScanState { target: Some(target), ..st1 };
    assert(empty_state().positionals.push(name) =~= seq![name]);
    assert(step("restore"@, toks, 0, empty_state()) == Ok::<(int, ScanState), Failure>((1, st1)));
    assert(value_follow("restore"@, st1, "--target"@, target) == Ok::<ScanState, Failure>(st2));
    assert(step("restore"@, toks, 1, st1) == Ok::<(int, ScanState), Failure>((2, st2)));
    assert(scan("restore"@, toks, 3, st2) == Ok::<ScanState, Failure>(st2));
    assert(scan("restore"@, toks, 1, st1) == Ok::<ScanState, Failure>(st2));
    assert(scan("restore"@, toks, 0, empty_state()) == Ok::<ScanState, Failure>(st2));
    assert(missing_text("restore"@, st2) =~= Seq::<char>::empty());
    assert(parse_args(args) == Ok::<(Seq<char>, ScanState), Failure>(("restore"@, st2)));
}

/// `show job <name>` and `show repo <name>` describe that job or that
/// repository.
pub proof fn lemma_show_line(prog: Seq<char>, kind: Seq<char>, name: Seq<char>, cli: Cli)
    requires
        kind == "job"@ || kind == "repo"@,
        plain(name),
    ensures
        parse_args(seq![prog, "show"@, kind, name]) matches Ok((sub, st)) && (denotes(cli, sub, st)
            ==> (cli.command matches Commands::Show { kind: k, name: n, format } && n@ == name
            && (k == ShowKind::Job <==> kind == "job"@) && format is None)),
{
    lemma_words_known();
    reveal_strlit("job");
    reveal_strlit("repo");
    let args = seq![prog, "show"@, kind, name];
    let toks = args.skip(2);
    assert(toks =~= seq![kind, name]);
    assert(!is_long(kind) && !is_short(kind) && kind != "--"@);
    let st1 = ScanState { positionals: seq![kind], ..empty_state() };
    let st2 = ScanState { positionals: seq![kind, name], ..empty_state() };
    assert(empty_state().positionals.push(kind) =~= seq![kind]);
    assert(st1.positionals.push(name) =~= seq![kind, name]);
    assert(step("show"@, toks, 0, empty_state()) == Ok::<(int, ScanState), Failure>((1, st1)));
    assert(step("show"@, toks, 1, st1) == Ok::<(int, ScanState), Failure>((1, st2)));
    assert(scan("show"@, toks, 2, st2) == Ok::<ScanState, Failure>(st2));
    assert(scan("show"@, toks, 1, st1) == Ok::<ScanState, Failure>(st2));
    assert(scan("show"@, toks, 0, empty_state()) == Ok::<ScanState, Failure>(st2));
    assert(missing_text("show"@, st2) =~= Seq::<char>::empty());
    assert(parse_args(args) == Ok::<(Seq<char>, ScanState), Failure>(("show"@, st2)));
}

/// `list <name> --format json` lists that job's snapshots as JSON.
pub proof fn lemma_list_json_line(prog: Seq<char>, name: Seq<char>, cli: Cli)
    requires
        plain(name),
    ensures
        parse_args(seq![prog, "list"@, name, "--format"@, "json"@]) matches Ok((sub, st)) && (denotes(
            cli,
            sub,
            st,
        ) ==> (cli.command matches Commands::List { name: n, format } && n@ == name && (
            format matches Some(f) && f@ == "json"@))),
{
    lemma_words_known();
    lemma_option_names_distinct();
    reveal_strlit("--format");
    reveal_strlit("json");
    lemma_plain_long("--format"@);
    reveal_strlit("--help");
    assert("--format"@[2] != "--help"@[2]);
    assert("--format"@ != "--help"@);
    let args = seq![prog, "list"@, name, "--format"@, "json"@];
    let toks = args.skip(2);
    assert(toks =~= seq![name, "--format"@, "json"@]);
    let st1 = ScanState { positionals: seq![name], ..empty_state() };
    let st2 = ScanState { format: Some("json"@), ..st1 };
    assert(empty_state().positionals.push(name) =~= seq![name]);
    assert(step("list"@, toks, 0, empty_state()) == Ok::<(int, ScanState), Failure>((1, st1)));
    assert(value_follow("list"@, st1, "--format"@, "json"@) == Ok::<ScanState, Failure>(st2));
    assert(step("list"@, toks, 1, st1) == Ok::<(int, ScanState), Failure>((2, st2)));
    assert(scan("list"@, toks, 3, st2) == Ok::<ScanState, Failure>(st2));
    assert(scan("list"@, toks, 1, st1) == Ok::<ScanState, Failure>(st2));
    assert(scan("list"@, toks, 0, empty_state()) == Ok::<ScanState, Failure>(st2));
    assert(missing_text("list"@, st2) =~= Seq::<char>::empty());
    assert(parse_args(args) == Ok::<(Seq<char>, ScanState), Failure>(("list"@, st2)));
}

} // verus!
