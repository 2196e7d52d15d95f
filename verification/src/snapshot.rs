//! Snapshots: listing them, applying a retention policy (`restic forget`)
//! and pruning, with restic's JSON output read into plain values.

use vstd::prelude::*;
use crate::config::{Job, ResolvedConfig, RetentionPolicy, fails_with_other, job_of, job_resolution_problem, password_of_job, repo_of_job};
use crate::errors::{AppError, ResticError};
use crate::json::{JsonValue, array_field, array_of, field, parse_json_array, parsed_json_array, str_field, str_of};
use crate::restic::{CommandOutput, ResticCommand, command_failure, fails_with_stderr, lemma_views_push, push_arg, push_arg_string, views};
use crate::text::{concat2, decimal, decimal_string, trim, trimmed};

verus! {

/// A snapshot as `restic snapshots --json` reports it.
#[derive(Debug, Clone)]
pub struct Snapshot {
    pub id: String,
    pub time: String,
    pub hostname: Option<String>,
    pub tags: Vec<String>,
    pub paths: Vec<String>,
    pub short_id: String,
}

/// The snapshots of a job, in the order restic reported them.
#[derive(Debug)]
pub struct SnapshotList {
    pub snapshots: Vec<Snapshot>,
}

/// Snapshot operations on a job's repository.
pub struct SnapshotManager;

/// What applying a retention policy needs next, or its answer.
pub enum RetentionStep {
    /// Run `restic forget` and report the snapshots it removed.
    Forget(ResticCommand),
    /// Run `restic prune`; the retention run then ends with these removed
    /// snapshots.
    Prune(ResticCommand, Vec<String>),
    /// Finished; these snapshots were removed.
    Done(Vec<String>),
}

/// The arguments `--flag n` for a limit that is set.
pub open spec fn limit_args(flag: Seq<char>, limit: Option<u32>) -> Seq<Seq<char>> {
    match limit {
        Some(n) => seq![flag, decimal(n as nat)],
        None => seq![],
    }
}

/// The `restic forget` arguments of a retention policy.
pub open spec fn retention_args(r: RetentionPolicy) -> Seq<Seq<char>> {
    limit_args("--keep-daily"@, r.keep_daily) + limit_args("--keep-weekly"@, r.keep_weekly)
        + limit_args("--keep-monthly"@, r.keep_monthly) + limit_args("--keep-yearly"@, r.keep_yearly)
        + limit_args("--keep-hourly"@, r.keep_hourly) + limit_args("--keep-last"@, r.keep_last)
}

/// The text of the string values among `a`, in order.
pub open spec fn text_strings(a: Seq<JsonValue>) -> Seq<Seq<char>>
    decreases a.len(),
{
    if a.len() == 0 {
        seq![]
    } else {
        text_strings(a.drop_last()) + match a.last() {
            JsonValue::String(s) => seq![s@],
            _ => seq![],
        }
    }
}

/// The text of the string values of an array, none for a missing array.
pub open spec fn listed_strings(a: Option<Seq<JsonValue>>) -> Seq<Seq<char>> {
    match a {
        Some(a) => text_strings(a),
        None => seq![],
    }
}

/// The text, or the empty text.
pub open spec fn or_empty(o: Option<Seq<char>>) -> Seq<char> {
    match o {
        Some(s) => s,
        None => seq![],
    }
}

/// The text of an optional string.
pub open spec fn opt_view(o: Option<String>) -> Option<Seq<char>> {
    match o {
        Some(s) => Some(s@),
        None => None,
    }
}

/// `s` is what the JSON value `v` says of a snapshot: missing or
/// non-text fields read as empty text (no hostname), and only the text
/// entries of `tags` and `paths` are kept.
pub open spec fn describes(s: Snapshot, v: JsonValue) -> bool {
    &&& s.id@ == or_empty(str_of(field(v, "id"@)))
    &&& s.time@ == or_empty(str_of(field(v, "time"@)))
    &&& opt_view(s.hostname) == str_of(field(v, "hostname"@))
    &&& views(s.tags@) == listed_strings(array_of(field(v, "tags"@)))
    &&& views(s.paths@) == listed_strings(array_of(field(v, "paths"@)))
    &&& s.short_id@ == or_empty(str_of(field(v, "short_id"@)))
}

/// The outcome of parsing `restic snapshots --json` output.
pub open spec fn snapshots_parsed(output: Seq<char>, r: Result<SnapshotList, AppError>) -> bool {
    if output.len() == 0 {
        r matches Ok(l) && l.snapshots@.len() == 0
    } else {
        match parsed_json_array(output) {
            Ok(values) => r matches Ok(l) && l.snapshots@.len() == values@.len() && forall|i: int|
                0 <= i < values@.len() ==> describes(#[trigger] l.snapshots@[i], values@[i]),
            Err(e) => r matches Err(AppError::Other(m)) && m@ == "Failed to parse snapshots JSON: "@
                + e@,
        }
    }
}

/// The ids of the snapshots listed in `snaps` that have a text id.
pub open spec fn ids_in(snaps: Seq<JsonValue>) -> Seq<Seq<char>>
    decreases snaps.len(),
{
    if snaps.len() == 0 {
        seq![]
    } else {
        ids_in(snaps.drop_last()) + match str_of(field(snaps.last(), "id"@)) {
            Some(id) => seq![id],
            None => seq![],
        }
    }
}

/// The ids of the snapshots that the policy groups of `restic forget
/// --json` list under `remove`, group by group.
pub open spec fn removed_ids(groups: Seq<JsonValue>) -> Seq<Seq<char>>
    decreases groups.len(),
{
    if groups.len() == 0 {
        seq![]
    } else {
        removed_ids(groups.drop_last()) + match array_of(field(groups.last(), "remove"@)) {
            Some(snaps) => ids_in(snaps),
            None => seq![],
        }
    }
}

/// The outcome of parsing `restic forget --json` output.
pub open spec fn forget_parsed(output: Seq<char>, r: Result<Vec<String>, AppError>) -> bool {
    if output.len() == 0 {
        r matches Ok(ids) && ids@.len() == 0
    } else {
        match parsed_json_array(output) {
            Ok(groups) => r matches Ok(ids) && views(ids@) == removed_ids(groups@),
            Err(e) => r matches Err(AppError::Other(m)) && m@ == "Failed to parse forget JSON: "@
                + e@,
        }
    }
}

fn collect_strings(a: &Vec<JsonValue>) -> (r: Vec<String>)
    ensures
        views(r@) == text_strings(a@),
{
    let mut r: Vec<String> = Vec::new();
    let mut i: usize = 0;
    while i < a.len()
        invariant
            i <= a@.len(),
            views(r@) == text_strings(a@.take(i as int)),
        decreases a@.len() - i,
    {
        assert(a@.take(i + 1).drop_last() =~= a@.take(i as int));
        match a[i].as_str() {
            Some(s) => {
                let ghost before = r@;
                r.push(s.clone());
                proof {
                    lemma_views_push(before, r@.last());
                    assert(r@ =~= before.push(r@.last()));
                    assert(views(r@) =~= views(before) + seq![s@]);
                }
            },
            None => {
                assert(text_strings(a@.take(i + 1)) =~= text_strings(a@.take(i as int)));
            },
        }
        i = i + 1;
    }
    assert(a@.take(a@.len() as int) =~= a@);
    r
}

fn listed(v: &JsonValue, key: &str) -> (r: Vec<String>)
    ensures
        views(r@) == listed_strings(array_of(field(*v, key@))),
{
    match array_field(v, key) {
        Some(a) => collect_strings(a),
        None => {
            let r: Vec<String> = Vec::new();
            assert(views(r@) =~= Seq::<Seq<char>>::empty());
            r
        },
    }
}

fn text_or_empty(v: &JsonValue, key: &str) -> (r: String)
    ensures
        r@ == or_empty(str_of(field(*v, key@))),
{
    match str_field(v, key) {
        Some(s) => s.clone(),
        None => String::new(),
    }
}

fn snapshot_from(v: &JsonValue) -> (s: Snapshot)
    ensures
        describes(s, *v),
{
    Snapshot {
        id: text_or_empty(v, "id"),
        time: text_or_empty(v, "time"),
        hostname: match str_field(v, "hostname") {
            Some(h) => Some(h.clone()),
            None => None,
        },
        tags: listed(v, "tags"),
        paths: listed(v, "paths"),
        short_id: text_or_empty(v, "short_id"),
    }
}

fn ids_of(snaps: &Vec<JsonValue>, out: &mut Vec<String>)
    ensures
        views(final(out)@) == views(old(out)@) + ids_in(snaps@),
{
    let mut i: usize = 0;
    while i < snaps.len()
        invariant
            i <= snaps@.len(),
            views(out@) == views(old(out)@) + ids_in(snaps@.take(i as int)),
        decreases snaps@.len() - i,
    {
        assert(snaps@.take(i + 1).drop_last() =~= snaps@.take(i as int));
        match str_field(&snaps[i], "id") {
            Some(id) => {
                let ghost before = out@;
                out.push(id.clone());
                proof {
                    lemma_views_push(before, out@.last());
                    assert(out@ =~= before.push(out@.last()));
                    assert(views(out@) =~= views(old(out)@) + ids_in(snaps@.take(i + 1)));
                }
            },
            None => {
                assert(ids_in(snaps@.take(i + 1)) =~= ids_in(snaps@.take(i as int)));
            },
        }
        i = i + 1;
    }
    assert(snaps@.take(snaps@.len() as int) =~= snaps@);
}

impl SnapshotManager {
    /// Appends the `restic forget` arguments of a retention policy: a
    /// `--keep-*` flag and its number for each limit that is set.
    pub fn apply_retention_args(args: &mut Vec<String>, retention: &RetentionPolicy)
        ensures
            views(final(args)@) == views(old(args)@) + retention_args(*retention),
    {
        let ghost start = views(args@);
        Self::push_limit(args, "--keep-daily", retention.keep_daily);
        Self::push_limit(args, "--keep-weekly", retention.keep_weekly);
        Self::push_limit(args, "--keep-monthly", retention.keep_monthly);
        Self::push_limit(args, "--keep-yearly", retention.keep_yearly);
        Self::push_limit(args, "--keep-hourly", retention.keep_hourly);
        Self::push_limit(args, "--keep-last", retention.keep_last);
        assert(views(args@) =~= start + retention_args(*retention));
    }

    fn push_limit(args: &mut Vec<String>, flag: &str, limit: Option<u32>)
        ensures
            views(final(args)@) == views(old(args)@) + limit_args(flag@, limit),
    {
        match limit {
            Some(n) => {
                push_arg(args, flag);
                push_arg_string(args, decimal_string(n as u64));
                assert(views(args@) =~= views(old(args)@) + limit_args(flag@, limit));
            },
            None => {
                assert(views(args@) =~= views(old(args)@) + limit_args(flag@, limit));
            },
        }
    }

    /// Reads the output of `restic snapshots --json`: no output means no
    /// snapshots; otherwise a JSON array, one snapshot per element.
    pub fn parse_snapshots(output: &str) -> (r: Result<SnapshotList, AppError>)
        ensures
            snapshots_parsed(output@, r),
    {
        if output.is_empty() {
            return Ok(SnapshotList { snapshots: Vec::new() });
        }
        match parse_json_array(output) {
            Ok(values) => Ok(Self::snapshots_from_json(&values)),
            Err(e) => Err(AppError::Other(concat2("Failed to parse snapshots JSON: ", e.as_str()))),
        }
    }

    /// The snapshots that parsed `restic snapshots --json` elements
    /// describe, one per element.
    pub fn snapshots_from_json(values: &Vec<JsonValue>) -> (r: SnapshotList)
        ensures
            r.snapshots@.len() == values@.len(),
            forall|i: int| 0 <= i < values@.len() ==> describes(#[trigger] r.snapshots@[i], values@[i]),
    {
        let mut snapshots: Vec<Snapshot> = Vec::new();
        let mut i: usize = 0;
        while i < values.len()
            invariant
                i <= values@.len(),
                snapshots@.len() == i,
                forall|j: int| 0 <= j < i ==> describes(#[trigger] snapshots@[j], values@[j]),
            decreases values@.len() - i,
        {
            snapshots.push(snapshot_from(&values[i]));
            i = i + 1;
        }
        SnapshotList { snapshots }
    }

    /// Reads the output of `restic forget --json`: no output means nothing
    /// removed; otherwise a JSON array of policy groups, and the ids listed
    /// under each group's `remove`.
    pub fn parse_forget_output(output: &str) -> (r: Result<Vec<String>, AppError>)
        ensures
            forget_parsed(output@, r),
    {
        if output.is_empty() {
            return Ok(Vec::new());
        }
        match parse_json_array(output) {
            Ok(groups) => Ok(Self::removed_from_json(&groups)),
            Err(e) => Err(AppError::Other(concat2("Failed to parse forget JSON: ", e.as_str()))),
        }
    }

    /// The ids of the snapshots that parsed `restic forget --json` policy
    /// groups list under `remove`, group by group.
    pub fn removed_from_json(groups: &Vec<JsonValue>) -> (r: Vec<String>)
        ensures
            views(r@) == removed_ids(groups@),
    {
        let mut removed: Vec<String> = Vec::new();
        let mut i: usize = 0;
        assert(views(removed@) =~= Seq::<Seq<char>>::empty());
        while i < groups.len()
            invariant
                i <= groups@.len(),
                views(removed@) == removed_ids(groups@.take(i as int)),
            decreases groups@.len() - i,
        {
            assert(groups@.take(i + 1).drop_last() =~= groups@.take(i as int));
            match array_field(&groups[i], "remove") {
                Some(snaps) => ids_of(snaps, &mut removed),
                None => {
                    assert(removed_ids(groups@.take(i + 1)) =~= removed_ids(groups@.take(i as int)));
                },
            }
            i = i + 1;
        }
        assert(groups@.take(groups@.len() as int) =~= groups@);
        removed
    }
}

/// The arguments of `restic snapshots` for a repository.
pub open spec fn list_args(repo: Seq<char>) -> Seq<Seq<char>> {
    seq!["snapshots"@, "--json"@, "--repo"@, repo]
}

/// The arguments of `restic forget` for a repository and policy.
pub open spec fn forget_args(repo: Seq<char>, r: RetentionPolicy, dry_run: bool) -> Seq<Seq<char>> {
    seq!["forget"@, "--json"@, "--repo"@, repo] + retention_args(r) + if dry_run {
        seq!["--dry-run"@]
    } else {
        seq![]
    }
}

/// The arguments of `restic prune` for a repository.
pub open spec fn prune_args(repo: Seq<char>) -> Seq<Seq<char>> {
    seq!["prune"@, "--repo"@, repo]
}

/// `cmd` runs restic with `args` against the repository of job `name`,
/// with its password, logging its output where `logs` says.
pub open spec fn runs_for_job(
    cmd: ResticCommand,
    rc: ResolvedConfig,
    name: Seq<char>,
    args: Seq<Seq<char>>,
    logs: bool,
) -> bool {
    &&& views(cmd.args@) == args
    &&& cmd.password@ == password_of_job(rc, name)
    &&& opt_view(cmd.log_file) == if logs {
        opt_view(repo_of_job(rc, name).log_cli_output)
    } else {
        None
    }
}

/// Why a retention run of job `name` cannot start, if it cannot.
pub open spec fn forget_problem(rc: ResolvedConfig, name: Seq<char>) -> Option<Seq<char>> {
    match job_resolution_problem(rc, name) {
        Some(m) => Some(m),
        None => if job_of(rc, name).retention is None {
            Some("No retention policy defined for job '"@ + name + "'"@)
        } else {
            None
        },
    }
}

impl SnapshotManager {
    /// The `restic snapshots --json` invocation that lists a job's snapshots.
    pub fn list_command(config: &ResolvedConfig, job_name: &str) -> (r: Result<ResticCommand, AppError>)
        ensures
            fails_with_other(r, job_resolution_problem(*config, job_name@)),
            r matches Ok(cmd) ==> runs_for_job(
                cmd,
                *config,
                job_name@,
                list_args(repo_of_job(*config, job_name@).repo@),
                false,
            ),
    {
        let (_job, repo, password) = match config.resolve_job(job_name) {
            Ok(t) => t,
            Err(e) => {
                return Err(e);
            },
        };
        let mut args: Vec<String> = Vec::new();
        push_arg(&mut args, "snapshots");
        push_arg(&mut args, "--json");
        push_arg(&mut args, "--repo");
        push_arg(&mut args, repo.repo.as_str());
        assert(views(args@) =~= list_args(repo.repo@));
        Ok(ResticCommand { args, password: String::from_str(password), log_file: None })
    }

    /// Reads a finished `restic snapshots --json`: a failure carries
    /// restic's standard error; otherwise the trimmed output is parsed.
    pub fn list_result(output: &CommandOutput) -> (r: Result<SnapshotList, AppError>)
        ensures
            !output.success ==> fails_with_stderr(r, *output),
            output.success ==> snapshots_parsed(trimmed(output.stdout@), r),
    {
        if !output.success {
            return Err(command_failure(output));
        }
        let text = trim(output.stdout.as_str());
        Self::parse_snapshots(text.as_str())
    }

    /// The `restic forget` invocation that applies a job's retention
    /// policy (with `--dry-run` when asked), logging its output where the
    /// repository says.
    pub fn forget_command(config: &ResolvedConfig, job_name: &str, dry_run: bool) -> (r: Result<
        ResticCommand,
        AppError,
    >)
        ensures
            fails_with_other(r, forget_problem(*config, job_name@)),
            r matches Ok(cmd) ==> runs_for_job(
                cmd,
                *config,
                job_name@,
                forget_args(
                    repo_of_job(*config, job_name@).repo@,
                    job_of(*config, job_name@).retention.unwrap(),
                    dry_run,
                ),
                true,
            ),
    {
        let (job, repo, password) = match config.resolve_job(job_name) {
            Ok(t) => t,
            Err(e) => {
                return Err(e);
            },
        };
        let retention = match &job.retention {
            Some(r) => r,
            None => {
                let mut m = String::from_str("No retention policy defined for job '");
                m.append(job_name);
                m.append("'");
                return Err(AppError::Other(m));
            },
        };
        let mut args: Vec<String> = Vec::new();
        push_arg(&mut args, "forget");
        push_arg(&mut args, "--json");
        push_arg(&mut args, "--repo");
        push_arg(&mut args, repo.repo.as_str());
        Self::apply_retention_args(&mut args, retention);
        if dry_run {
            push_arg(&mut args, "--dry-run");
        }
        assert(views(args@) =~= forget_args(repo.repo@, *retention, dry_run));
        Ok(ResticCommand {
            args,
            password: String::from_str(password),
            log_file: repo.log_cli_output.clone(),
        })
    }

    /// Reads a finished `restic forget --json`: a failure carries restic's
    /// standard error; otherwise the removed snapshot ids.
    pub fn forget_result(output: &CommandOutput) -> (r: Result<Vec<String>, AppError>)
        ensures
            !output.success ==> fails_with_stderr(r, *output),
            output.success ==> forget_parsed(trimmed(output.stdout@), r),
    {
        if !output.success {
            return Err(command_failure(output));
        }
        let text = trim(output.stdout.as_str());
        Self::parse_forget_output(text.as_str())
    }

    /// The `restic prune` invocation for a job's repository, logging its
    /// output where the repository says.
    pub fn prune_command(config: &ResolvedConfig, job_name: &str) -> (r: Result<ResticCommand, AppError>)
        ensures
            fails_with_other(r, job_resolution_problem(*config, job_name@)),
            r matches Ok(cmd) ==> runs_for_job(
                cmd,
                *config,
                job_name@,
                prune_args(repo_of_job(*config, job_name@).repo@),
                true,
            ),
    {
        let (_job, repo, password) = match config.resolve_job(job_name) {
            Ok(t) => t,
            Err(e) => {
                return Err(e);
            },
        };
        let mut args: Vec<String> = Vec::new();
        push_arg(&mut args, "prune");
        push_arg(&mut args, "--repo");
        push_arg(&mut args, repo.repo.as_str());
        assert(views(args@) =~= prune_args(repo.repo@));
        Ok(ResticCommand {
            args,
            password: String::from_str(password),
            log_file: repo.log_cli_output.clone(),
        })
    }

    /// Reads a finished `restic prune`: a failure carries restic's standard
    /// error.
    pub fn prune_result(output: &CommandOutput) -> (r: Result<(), AppError>)
        ensures
            output.success <==> r is Ok,
            !output.success ==> fails_with_stderr(r, *output),
    {
        if !output.success {
            return Err(command_failure(output));
        }
        Ok(())
    }

    /// Applies a job's retention policy, one step at a time: first
    /// `restic forget`; once its removed snapshots are known, `restic prune`
    /// follows only for a real run that removed something.
    pub fn apply_retention(
        config: &ResolvedConfig,
        job_name: &str,
        dry_run: bool,
        removed: Option<Vec<String>>,
    ) -> (r: Result<RetentionStep, AppError>)
        ensures
            removed is None ==> fails_with_other(r, forget_problem(*config, job_name@)),
            removed is None ==> (r matches Ok(step) ==> step matches RetentionStep::Forget(cmd)
                && runs_for_job(
                cmd,
                *config,
                job_name@,
                forget_args(
                    repo_of_job(*config, job_name@).repo@,
                    job_of(*config, job_name@).retention.unwrap(),
                    dry_run,
                ),
                true,
            )),
            removed matches Some(ids) ==> (dry_run || ids@.len() == 0) ==> (r matches Ok(
                RetentionStep::Done(done),
            ) && done@ == ids@),
            removed matches Some(ids) ==> (!dry_run && ids@.len() > 0) ==> fails_with_other(
                r,
                job_resolution_problem(*config, job_name@),
            ) && (r matches Ok(step) ==> step matches RetentionStep::Prune(cmd, done) && done@
                == ids@ && runs_for_job(
                cmd,
                *config,
                job_name@,
                prune_args(repo_of_job(*config, job_name@).repo@),
                true,
            )),
    {
        match removed {
            None => match Self::forget_command(config, job_name, dry_run) {
                Ok(cmd) => Ok(RetentionStep::Forget(cmd)),
                Err(e) => Err(e),
            },
            Some(ids) => {
                if !dry_run && ids.len() > 0 {
                    match Self::prune_command(config, job_name) {
                        Ok(cmd) => Ok(RetentionStep::Prune(cmd, ids)),
                        Err(e) => Err(e),
                    }
                } else {
                    Ok(RetentionStep::Done(ids))
                }
            },
        }
    }
}


/// `flag` appears in `args` immediately followed by `value`.
pub open spec fn flag_followed_by(args: Seq<Seq<char>>, flag: Seq<char>, value: Seq<char>) -> bool {
    exists|i: int| 0 <= i && i + 1 < args.len() && #[trigger] args[i] == flag && args[i + 1] == value
}

/// The `--keep-*` argument for one limit of a policy: `flag` followed by the
/// limit when it is set, and `flag` nowhere in the arguments when it is not.
pub open spec fn keeps(args: Seq<Seq<char>>, flag: Seq<char>, limit: Option<u32>) -> bool {
    match limit {
        Some(n) => flag_followed_by(args, flag, decimal(n as nat)),
        None => !args.contains(flag),
    }
}

proof fn lemma_decimal_not_flag(n: nat)
    ensures
        decimal(n).len() > 0,
        decimal(n)[0] != '-',
    decreases n,
{
    if n >= 10 {
        lemma_decimal_not_flag(n / 10);
    }
}

proof fn lemma_limit_args_lacks(flag: Seq<char>, limit: Option<u32>, other: Seq<char>)
    requires
        flag != other,
        other.len() > 0,
        other[0] == '-',
    ensures
        !limit_args(flag, limit).contains(other),
{
    if let Some(n) = limit {
        lemma_decimal_not_flag(n as nat);
        let a = limit_args(flag, limit);
        assert forall|i: int| 0 <= i < a.len() implies a[i] != other by {
            if i == 1 {
                assert(a[1] == decimal(n as nat));
            }
        }
    }
}

proof fn lemma_concat_lacks(a: Seq<Seq<char>>, b: Seq<Seq<char>>, x: Seq<char>)
    requires
        !a.contains(x),
        !b.contains(x),
    ensures
        !(a + b).contains(x),
{
    assert forall|i: int| 0 <= i < (a + b).len() implies (a + b)[i] != x by {
        if i < a.len() {
            assert((a + b)[i] == a[i]);
        } else {
            assert((a + b)[i] == b[i - a.len()]);
        }
    }
}

proof fn lemma_pair_kept(a: Seq<Seq<char>>, b: Seq<Seq<char>>, flag: Seq<char>, value: Seq<char>)
    ensures
        flag_followed_by(a, flag, value) ==> flag_followed_by(a + b, flag, value),
        flag_followed_by(b, flag, value) ==> flag_followed_by(a + b, flag, value),
{
    if flag_followed_by(a, flag, value) {
        let i = choose|i: int| 0 <= i && i + 1 < a.len() && #[trigger] a[i] == flag && a[i + 1] == value;
        assert((a + b)[i] == flag && (a + b)[i + 1] == value);
    }
    if flag_followed_by(b, flag, value) {
        let i = choose|i: int| 0 <= i && i + 1 < b.len() && #[trigger] b[i] == flag && b[i + 1] == value;
        assert((a + b)[a.len() + i] == flag && (a + b)[a.len() + i + 1] == value);
    }
}

proof fn lemma_keeps_chunk(
    parts: Seq<(Seq<char>, Option<u32>)>,
    k: int,
)
    requires
        0 <= k < parts.len(),
        forall|i: int| 0 <= i < parts.len() ==> (#[trigger] parts[i]).0.len() > 0 && parts[i].0[0] == '-',
        forall|i: int, j: int| 0 <= i < j < parts.len() ==> (#[trigger] parts[i]).0 != (#[trigger] parts[j]).0,
    ensures
        keeps(chunks(parts), parts[k].0, parts[k].1),
    decreases parts.len(),
{
    let last = parts.len() - 1;
    let prev = parts.drop_last();
    assert(chunks(parts) == chunks(prev) + limit_args(parts[last].0, parts[last].1));
    if k < last {
        lemma_keeps_chunk(prev, k);
        assert(prev[k] == parts[k]);
        match parts[k].1 {
            Some(n) => {
                lemma_pair_kept(chunks(prev), limit_args(parts[last].0, parts[last].1), parts[k].0, decimal(n as nat));
            },
            None => {
                lemma_limit_args_lacks(parts[last].0, parts[last].1, parts[k].0);
                lemma_concat_lacks(chunks(prev), limit_args(parts[last].0, parts[last].1), parts[k].0);
            },
        }
    } else {
        assert forall|i: int| 0 <= i < prev.len() implies !limit_args((#[trigger] prev[i]).0, prev[i].1).contains(parts[k].0) by {
            assert(prev[i] == parts[i]);
            lemma_limit_args_lacks(prev[i].0, prev[i].1, parts[k].0);
        }
        lemma_chunks_lack(prev, parts[k].0);
        match parts[k].1 {
            Some(n) => {
                assert(limit_args(parts[k].0, parts[k].1)[0] == parts[k].0);
                assert(flag_followed_by(limit_args(parts[k].0, parts[k].1), parts[k].0, decimal(n as nat)));
                lemma_pair_kept(chunks(prev), limit_args(parts[last].0, parts[last].1), parts[k].0, decimal(n as nat));
            },
            None => {
                lemma_concat_lacks(chunks(prev), limit_args(parts[last].0, parts[last].1), parts[k].0);
            },
        }
    }
}

proof fn lemma_chunks_lack(parts: Seq<(Seq<char>, Option<u32>)>, x: Seq<char>)
    requires
        forall|i: int| 0 <= i < parts.len() ==> !limit_args((#[trigger] parts[i]).0, parts[i].1).contains(x),
    ensures
        !chunks(parts).contains(x),
    decreases parts.len(),
{
    if parts.len() > 0 {
        let prev = parts.drop_last();
        assert forall|i: int| 0 <= i < prev.len() implies !limit_args((#[trigger] prev[i]).0, prev[i].1).contains(x) by {
            assert(prev[i] == parts[i]);
        }
        lemma_chunks_lack(prev, x);
        lemma_concat_lacks(chunks(prev), limit_args(parts[parts.len() - 1].0, parts[parts.len() - 1].1), x);
    }
}

/// The `--keep-*` arguments of flag/limit pairs, in order.
pub open spec fn chunks(parts: Seq<(Seq<char>, Option<u32>)>) -> Seq<Seq<char>>
    decreases parts.len(),
{
    if parts.len() == 0 {
        seq![]
    } else {
        chunks(parts.drop_last()) + limit_args(parts.last().0, parts.last().1)
    }
}

/// Each `--keep-*` flag of `restic forget` carries the policy limit of the
/// same name: `--keep-daily`, `--keep-weekly`, `--keep-monthly`,
/// `--keep-yearly`, `--keep-hourly` and `--keep-last` each appear followed
/// by the limit exactly when that limit is set, and not at all otherwise.
pub proof fn lemma_retention_flags(r: RetentionPolicy)
    ensures
        keeps(retention_args(r), "--keep-daily"@, r.keep_daily),
        keeps(retention_args(r), "--keep-weekly"@, r.keep_weekly),
        keeps(retention_args(r), "--keep-monthly"@, r.keep_monthly),
        keeps(retention_args(r), "--keep-yearly"@, r.keep_yearly),
        keeps(retention_args(r), "--keep-hourly"@, r.keep_hourly),
        keeps(retention_args(r), "--keep-last"@, r.keep_last),
{
    reveal_strlit("--keep-daily");
    reveal_strlit("--keep-weekly");
    reveal_strlit("--keep-monthly");
    reveal_strlit("--keep-yearly");
    reveal_strlit("--keep-hourly");
    reveal_strlit("--keep-last");
    let parts = seq![
        ("--keep-daily"@, r.keep_daily),
        ("--keep-weekly"@, r.keep_weekly),
        ("--keep-monthly"@, r.keep_monthly),
        ("--keep-yearly"@, r.keep_yearly),
        ("--keep-hourly"@, r.keep_hourly),
        ("--keep-last"@, r.keep_last),
    ];
    assert forall|k: int| 1 <= k <= 6 implies #[trigger] chunks(parts.take(k)) == chunks(parts.take(k - 1))
        + limit_args(parts[k - 1].0, parts[k - 1].1) by {
        assert(parts.take(k).drop_last() =~= parts.take(k - 1));
        assert(parts.take(k).last() == parts[k - 1]);
    }
    assert(chunks(parts.take(0)) =~= Seq::<Seq<char>>::empty());
    assert(chunks(parts.take(1)) =~= limit_args(parts[0].0, parts[0].1));
    assert(chunks(parts.take(2)) =~= chunks(parts.take(1)) + limit_args(parts[1].0, parts[1].1));
    assert(chunks(parts.take(3)) =~= chunks(parts.take(2)) + limit_args(parts[2].0, parts[2].1));
    assert(chunks(parts.take(4)) =~= chunks(parts.take(3)) + limit_args(parts[3].0, parts[3].1));
    assert(chunks(parts.take(5)) =~= chunks(parts.take(4)) + limit_args(parts[4].0, parts[4].1));
    assert(chunks(parts.take(6)) =~= chunks(parts.take(5)) + limit_args(parts[5].0, parts[5].1));
    assert(parts.take(6) =~= parts);
    assert(chunks(parts) =~= retention_args(r));
    assert forall|i: int| 0 <= i < parts.len() implies (#[trigger] parts[i]).0.len() > 0 && parts[i].0[0] == '-' by {}
    assert forall|i: int, j: int| 0 <= i < j < parts.len() implies (#[trigger] parts[i]).0 != (#[trigger] parts[j]).0 by {
        assert(parts[i].0[7] != parts[j].0[7] || parts[i].0.len() != parts[j].0.len());
    }
    lemma_keeps_chunk(parts, 0);
    lemma_keeps_chunk(parts, 1);
    lemma_keeps_chunk(parts, 2);
    lemma_keeps_chunk(parts, 3);
    lemma_keeps_chunk(parts, 4);
    lemma_keeps_chunk(parts, 5);
}


/// What a listed snapshot shows is what restic wrote in its JSON element:
/// its id, time and short id are the strings under the keys `id`, `time`
/// and `short_id` (empty only when a key is missing or not a string), and
/// its hostname is the string under `hostname`, if there is one.
pub proof fn lemma_snapshot_fields(s: Snapshot, v: JsonValue)
    requires
        describes(s, v),
    ensures
        str_of(field(v, "time"@)) matches Some(t) ==> s.time@ == t,
        str_of(field(v, "time"@)) is None ==> s.time@.len() == 0,
        str_of(field(v, "id"@)) matches Some(t) ==> s.id@ == t,
        str_of(field(v, "id"@)) is None ==> s.id@.len() == 0,
        str_of(field(v, "short_id"@)) matches Some(t) ==> s.short_id@ == t,
        str_of(field(v, "short_id"@)) is None ==> s.short_id@.len() == 0,
        str_of(field(v, "hostname"@)) matches Some(t) ==> s.hostname matches Some(h) && h@ == t,
        str_of(field(v, "hostname"@)) is None ==> s.hostname is None,
        views(s.tags@) == listed_strings(array_of(field(v, "tags"@))),
        views(s.paths@) == listed_strings(array_of(field(v, "paths"@))),
{
}

/// Parsing `restic snapshots --json` output that is a JSON array gives
/// one snapshot per element, in order, each showing the strings its
/// element holds under `id`, `time` and `short_id`.
pub proof fn lemma_parsed_snapshot_fields(output: Seq<char>, r: Result<SnapshotList, AppError>, i: int)
    requires
        output.len() > 0,
        snapshots_parsed(output, r),
        parsed_json_array(output) is Ok,
    ensures
        r matches Ok(l) && l.snapshots@.len() == parsed_json_array(output)->Ok_0@.len(),
        0 <= i < parsed_json_array(output)->Ok_0@.len() ==> ({
            let v = parsed_json_array(output)->Ok_0@[i];
            let snap = r->Ok_0.snapshots@[i];
            &&& (str_of(field(v, "time"@)) matches Some(t) ==> snap.time@ == t)
            &&& (str_of(field(v, "time"@)) is None ==> snap.time@.len() == 0)
            &&& (str_of(field(v, "id"@)) matches Some(t) ==> snap.id@ == t)
            &&& (str_of(field(v, "short_id"@)) matches Some(t) ==> snap.short_id@ == t)
        }),
{
    let values = parsed_json_array(output)->Ok_0@;
    if 0 <= i < values.len() {
        lemma_snapshot_fields(r->Ok_0.snapshots@[i], values[i]);
    }
}


/// The `restic forget` arguments: `forget --json --repo <repo>`, then the
/// policy's `--keep-*` flags, each carrying the limit of the same name
/// exactly when it is set, then `--dry-run` exactly in a dry run.
pub proof fn lemma_forget_args(repo: Seq<char>, r: RetentionPolicy, dry_run: bool)
    ensures
        forget_args(repo, r, dry_run).take(4) == seq!["forget"@, "--json"@, "--repo"@, repo],
        forget_args(repo, r, dry_run).skip(4).contains("--dry-run"@) <==> dry_run,
        keeps(forget_args(repo, r, dry_run).skip(4), "--keep-daily"@, r.keep_daily),
        keeps(forget_args(repo, r, dry_run).skip(4), "--keep-weekly"@, r.keep_weekly),
        keeps(forget_args(repo, r, dry_run).skip(4), "--keep-monthly"@, r.keep_monthly),
        keeps(forget_args(repo, r, dry_run).skip(4), "--keep-yearly"@, r.keep_yearly),
        keeps(forget_args(repo, r, dry_run).skip(4), "--keep-hourly"@, r.keep_hourly),
        keeps(forget_args(repo, r, dry_run).skip(4), "--keep-last"@, r.keep_last),
{
    let head = seq!["forget"@, "--json"@, "--repo"@, repo];
    let ra = retention_args(r);
    let tail = if dry_run { seq!["--dry-run"@] } else { Seq::<Seq<char>>::empty() };
    let args = forget_args(repo, r, dry_run);
    assert(args == head + ra + tail);
    assert(args.take(4) =~= head);
    assert(args.skip(4) =~= ra + tail);
    lemma_retention_flags(r);
    reveal_strlit("--dry-run");
    reveal_strlit("--keep-daily");
    reveal_strlit("--keep-weekly");
    reveal_strlit("--keep-monthly");
    reveal_strlit("--keep-yearly");
    reveal_strlit("--keep-hourly");
    reveal_strlit("--keep-last");
    let flags = seq![
        ("--keep-daily"@, r.keep_daily),
        ("--keep-weekly"@, r.keep_weekly),
        ("--keep-monthly"@, r.keep_monthly),
        ("--keep-yearly"@, r.keep_yearly),
        ("--keep-hourly"@, r.keep_hourly),
        ("--keep-last"@, r.keep_last),
    ];
    assert forall|k: int| 0 <= k < 6 implies keeps(ra + tail, (#[trigger] flags[k]).0, flags[k].1) by {
        assert(keeps(ra, flags[k].0, flags[k].1));
        match flags[k].1 {
            Some(n) => {
                lemma_pair_kept(ra, tail, flags[k].0, decimal(n as nat));
            },
            None => {
                assert(!tail.contains(flags[k].0)) by {
                    if dry_run {
                        assert(tail[0] == "--dry-run"@);
                        assert(tail[0][2] != flags[k].0[2]);
                    }
                }
                lemma_concat_lacks(ra, tail, flags[k].0);
            },
        }
    }
    assert(keeps(ra + tail, flags[0].0, flags[0].1));
    assert(keeps(ra + tail, flags[1].0, flags[1].1));
    assert(keeps(ra + tail, flags[2].0, flags[2].1));
    assert(keeps(ra + tail, flags[3].0, flags[3].1));
    assert(keeps(ra + tail, flags[4].0, flags[4].1));
    assert(keeps(ra + tail, flags[5].0, flags[5].1));
    assert(!ra.contains("--dry-run"@)) by {
        assert("--dry-run"@[2] == 'd');
        assert("--keep-daily"@[2] != "--dry-run"@[2]);
        assert("--keep-weekly"@[2] != "--dry-run"@[2]);
        assert("--keep-monthly"@[2] != "--dry-run"@[2]);
        assert("--keep-yearly"@[2] != "--dry-run"@[2]);
        assert("--keep-hourly"@[2] != "--dry-run"@[2]);
        assert("--keep-last"@[2] != "--dry-run"@[2]);
        lemma_limit_args_lacks("--keep-daily"@, r.keep_daily, "--dry-run"@);
        lemma_limit_args_lacks("--keep-weekly"@, r.keep_weekly, "--dry-run"@);
        lemma_limit_args_lacks("--keep-monthly"@, r.keep_monthly, "--dry-run"@);
        lemma_limit_args_lacks("--keep-yearly"@, r.keep_yearly, "--dry-run"@);
        lemma_limit_args_lacks("--keep-hourly"@, r.keep_hourly, "--dry-run"@);
        lemma_limit_args_lacks("--keep-last"@, r.keep_last, "--dry-run"@);
        let l0 = limit_args("--keep-daily"@, r.keep_daily);
        let l1 = limit_args("--keep-weekly"@, r.keep_weekly);
        let l2 = limit_args("--keep-monthly"@, r.keep_monthly);
        let l3 = limit_args("--keep-yearly"@, r.keep_yearly);
        let l4 = limit_args("--keep-hourly"@, r.keep_hourly);
        let l5 = limit_args("--keep-last"@, r.keep_last);
        lemma_concat_lacks(l0, l1, "--dry-run"@);
        lemma_concat_lacks(l0 + l1, l2, "--dry-run"@);
        lemma_concat_lacks(l0 + l1 + l2, l3, "--dry-run"@);
        lemma_concat_lacks(l0 + l1 + l2 + l3, l4, "--dry-run"@);
        lemma_concat_lacks(l0 + l1 + l2 + l3 + l4, l5, "--dry-run"@);
    }
    if dry_run {
        assert((ra + tail)[ra.len() as int] == "--dry-run"@);
    } else {
        assert(ra + tail =~= ra);
    }
}

} // verus!
