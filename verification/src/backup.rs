//! Backups: the plan of a run, the `restic backup` invocation, reading its
//! JSON progress stream and summary, and the outcome of hook commands.

use vstd::prelude::*;
use crate::config::{Hook, Job, Repository, ResolvedConfig, fails_with_other, job_of, job_resolution_problem, password_of_job, repo_of_job};
use crate::errors::{AppError, ResticError};
use crate::json::{JsonValue, field, parse_json, parsed_json, str_field, str_of, u64_field, u64_of};
use crate::restic::{ResticCommand, lemma_views_push, push_arg, push_arg_string, views};
use crate::text::{append_decimal, decimal, concat2, concat3, contains_str, join_strings, joined, has_substring, lines, split_lines, str_eq, truncate_with_suffix, truncated, utf8_len};

verus! {

/// The text to pass to restic for a backup path.
pub fn path_to_arg(path: &str) -> (r: String)
    ensures
        r@ == path@,
{
    String::from_str(path)
}

/// Summary of one backup run, read from restic's JSON output.
#[derive(Debug)]
pub struct BackupResult {
    /// Name of the job that produced this backup.
    pub job_name: String,
    /// Snapshot id assigned by restic, if the run reached its summary.
    pub snapshot_id: Option<String>,
    pub files_new: u32,
    pub files_changed: u32,
    pub files_unmodified: u32,
    pub dirs_new: u32,
    pub dirs_changed: u32,
    pub dirs_unmodified: u32,
    pub data_blobs: u32,
    pub tree_blobs: u32,
    /// Bytes added to the repository.
    pub data_added: u64,
    /// True when restic exited with code 3: the snapshot was made but some
    /// source files could not be read.
    pub partial: bool,
    /// The highest error count seen in restic's status messages.
    pub errors_count: u64,
}

/// Backup operations.
pub struct Backup;

/// What a backup run of a job uses: the job, its repository and password,
/// and the hooks to run (none in a dry run).
pub struct BackupPlan<'a> {
    pub job: &'a Job,
    pub repository: &'a Repository,
    pub password: &'a str,
    pub dry_run: bool,
    pub pre_hooks: &'a [Hook],
    pub post_hooks: &'a [Hook],
}

/// One line of restic's JSON progress stream, as the run reads it.
#[derive(Debug, PartialEq, Eq)]
pub enum ProgressEvent {
    /// A status message, with its counters (missing ones read as zero).
    Status { files_done: u64, total_files: u64, bytes_done: u64, total_bytes: u64, errors: u64 },
    /// A per-file message.
    Verbose { action: String, item: String },
    /// The summary message: reading stops here.
    Summary,
    /// Anything else.
    Ignored,
}

/// What has been read of a running backup's output.
pub struct BackupProgress {
    /// Every line read, in order.
    pub lines: Vec<String>,
    /// The highest `error_count` among the status messages read.
    pub errors_count: u64,
    /// True once the summary line was read.
    pub finished: bool,
}

/// A counter read from a JSON value; missing or non-integer reads as zero.
pub open spec fn count_of(v: Option<JsonValue>) -> u64 {
    match u64_of(v) {
        Some(n) => n,
        None => 0,
    }
}

/// `v[key]` for an optional value.
pub open spec fn field_in(v: Option<JsonValue>, key: Seq<char>) -> Option<JsonValue> {
    match v {
        Some(x) => field(x, key),
        None => None,
    }
}

/// The first line that mentions `"summary"`.
pub open spec fn summary_line(ls: Seq<Seq<char>>) -> Option<Seq<char>>
    decreases ls.len(),
{
    if ls.len() == 0 {
        None
    } else if has_substring(ls[0], "\"summary\""@) {
        Some(ls[0])
    } else {
        summary_line(ls.drop_first())
    }
}

/// `r` holds what the summary object `v` reports (counts truncated to
/// 32 bits as restic's fields are read), with no job name, not partial and
/// no errors counted.
pub open spec fn reports_summary(r: BackupResult, v: JsonValue) -> bool {
    let s = field(v, "summary"@);
    &&& r.job_name@ == Seq::<char>::empty()
    &&& match r.snapshot_id {
        Some(id) => str_of(field(v, "snapshot_id"@)) == Some(id@),
        None => str_of(field(v, "snapshot_id"@)) is None,
    }
    &&& r.files_new == count_of(field_in(s, "files_new"@)) as u32
    &&& r.files_changed == count_of(field_in(s, "files_changed"@)) as u32
    &&& r.files_unmodified == count_of(field_in(s, "files_unmodified"@)) as u32
    &&& r.dirs_new == count_of(field_in(s, "dirs_new"@)) as u32
    &&& r.dirs_changed == count_of(field_in(s, "dirs_changed"@)) as u32
    &&& r.dirs_unmodified == count_of(field_in(s, "dirs_unmodified"@)) as u32
    &&& r.data_blobs == count_of(field_in(s, "data_blobs"@)) as u32
    &&& r.tree_blobs == count_of(field_in(s, "tree_blobs"@)) as u32
    &&& r.data_added == count_of(field_in(s, "data_added"@))
    &&& !r.partial
    &&& r.errors_count == 0
}

/// The outcome of reading a backup's output for its summary.
pub open spec fn backup_parsed(output: Seq<char>, r: Result<BackupResult, AppError>) -> bool {
    match summary_line(lines(output)) {
        None => r matches Err(AppError::Other(m)) && m@ == "No summary in backup output"@,
        Some(line) => match parsed_json(line) {
            Err(e) => r matches Err(AppError::Other(m)) && m@ == "Failed to parse backup JSON: "@
                + e@,
            Ok(v) => r matches Ok(res) && reports_summary(res, v),
        },
    }
}

fn count_field(v: Option<&JsonValue>, key: &str) -> (r: u64)
    ensures
        r == count_of(field_in(
            match v {
                Some(x) => Some(*x),
                None => None,
            },
            key@,
        )),
{
    match v {
        Some(x) => match u64_field(x, key) {
            Some(n) => n,
            None => 0,
        },
        None => 0,
    }
}

/// What a parsed summary message reports.
pub fn summary_from_json(v: &JsonValue) -> (r: BackupResult)
    ensures
        reports_summary(r, *v),
{
    let s = v.get("summary");
    BackupResult {
        job_name: String::new(),
        snapshot_id: match str_field(v, "snapshot_id") {
            Some(id) => Some(id.clone()),
            None => None,
        },
        files_new: count_field(s, "files_new") as u32,
        files_changed: count_field(s, "files_changed") as u32,
        files_unmodified: count_field(s, "files_unmodified") as u32,
        dirs_new: count_field(s, "dirs_new") as u32,
        dirs_changed: count_field(s, "dirs_changed") as u32,
        dirs_unmodified: count_field(s, "dirs_unmodified") as u32,
        data_blobs: count_field(s, "data_blobs") as u32,
        tree_blobs: count_field(s, "tree_blobs") as u32,
        data_added: count_field(s, "data_added"),
        partial: false,
        errors_count: 0,
    }
}

impl Backup {
    /// The most bytes of a hook's standard error kept in an error message,
    /// so a chatty hook cannot produce an unbounded message.
    pub const MAX_HOOK_STDERR_LEN: usize = 4096;

    /// Caps a hook's standard error at `MAX_HOOK_STDERR_LEN` bytes, cutting
    /// on a character boundary and marking the cut.
    pub fn truncate_hook_stderr(text: &str) -> (r: String)
        ensures
            truncated(text@, 4096, "... (truncated)"@, r@),
            utf8_len(r@) <= 4096,
    {
        let suffix = "... (truncated)";
        proof {
            reveal_strlit("... (truncated)");
            vstd::utf8::is_ascii_chars_encode_utf8(suffix@);
        }
        truncate_with_suffix(text, Self::MAX_HOOK_STDERR_LEN, suffix)
    }

    /// Reads a backup's output for its summary: the first line that
    /// mentions `"summary"`, parsed as JSON.
    pub fn parse_backup_output(output: &str) -> (r: Result<BackupResult, AppError>)
        ensures
            backup_parsed(output@, r),
    {
        let ls = split_lines(output);
        let ghost lv = ls@.map_values(|x: String| x@);
        let mut i: usize = 0;
        assert(lv.skip(0) =~= lv);
        while i < ls.len()
            invariant
                lv == ls@.map_values(|x: String| x@),
                lv == lines(output@),
                i <= ls@.len(),
                summary_line(lv) == summary_line(lv.skip(i as int)),
            decreases ls@.len() - i,
        {
            assert(lv.skip(i as int).drop_first() =~= lv.skip(i + 1));
            assert(lv.skip(i as int)[0] == ls@[i as int]@);
            if contains_str(ls[i].as_str(), "\"summary\"") {
                return match parse_json(ls[i].as_str()) {
                    Ok(v) => Ok(summary_from_json(&v)),
                    Err(e) => Err(AppError::Other(concat2("Failed to parse backup JSON: ", e.as_str()))),
                };
            }
            i = i + 1;
        }
        assert(lv.skip(i as int) =~= Seq::<Seq<char>>::empty());
        Err(AppError::Other(String::from_str("No summary in backup output")))
    }
}


/// The arguments of `restic backup`: `--dry-run` when asked, JSON output,
/// the repository, the exclude file if any, then the paths.
pub open spec fn backup_args(
    repo: Seq<char>,
    exclude_file: Option<Seq<char>>,
    paths: Seq<Seq<char>>,
    dry_run: bool,
) -> Seq<Seq<char>> {
    seq!["backup"@] + (if dry_run {
        seq!["--dry-run"@]
    } else {
        seq![]
    }) + seq!["--json"@, "--repo"@, repo] + (match exclude_file {
        Some(f) => seq!["--exclude-file"@, f],
        None => seq![],
    }) + paths
}

/// The text of an optional string slice.
pub open spec fn opt_str_view(o: Option<&str>) -> Option<Seq<char>> {
    match o {
        Some(s) => Some(s@),
        None => None,
    }
}

/// The event that one line of the progress stream is: a JSON object read
/// by its `message_type`.
pub open spec fn progress_event(line: Seq<char>, e: ProgressEvent) -> bool {
    match parsed_json(line) {
        Err(_) => e is Ignored,
        Ok(v) => json_event(v, e),
    }
}

/// The event that a parsed progress message is, by its `message_type`.
pub open spec fn json_event(v: JsonValue, e: ProgressEvent) -> bool {
    match str_of(field(v, "message_type"@)) {
            None => e is Ignored,
            Some(t) => if t == "status"@ {
                e == ProgressEvent::Status {
                    files_done: count_of(field(v, "files_done"@)),
                    total_files: count_of(field(v, "total_files"@)),
                    bytes_done: count_of(field(v, "bytes_done"@)),
                    total_bytes: count_of(field(v, "total_bytes"@)),
                    errors: count_of(field(v, "error_count"@)),
                }
            } else if t == "verbose_status"@ {
                match str_of(field(v, "item"@)) {
                    Some(item) => e matches ProgressEvent::Verbose { action: a, item: i } && i@
                        == item && a@ == match str_of(field(v, "action"@)) {
                        Some(a) => a,
                        None => Seq::<char>::empty(),
                    },
                    None => e is Ignored,
                }
            } else if t == "summary"@ {
                e is Summary
            } else {
                e is Ignored
            },
    }
}

/// The text of a hook failure: the hook type, the command, the exit code
/// as `{:?}` renders an `Option<i32>`, and the (capped) standard error.
pub open spec fn hook_failure_text(
    hook_type: Seq<char>,
    command: Seq<char>,
    code: Seq<char>,
    stderr: Seq<char>,
) -> Seq<char> {
    hook_type + " hook '"@ + command + "' failed (exit "@ + code + "): "@ + stderr
}

/// The progress line of a backup: files done and the totals, then, when
/// there are errors, their count and the bytes done. The byte amounts come
/// already rendered.
pub open spec fn progress_text(
    files_done: u64,
    total_files: u64,
    bytes_text: Seq<char>,
    total_bytes_text: Seq<char>,
    errors: u64,
) -> Seq<char> {
    let files = decimal(files_done as nat) + " files"@;
    let total = decimal(total_files as nat) + " files "@ + total_bytes_text;
    if errors == 0 {
        files + ", total "@ + total
    } else {
        files + ", total "@ + total + " ("@ + decimal(errors as nat) + " errors), "@ + bytes_text
    }
}

/// Renders the progress line of a backup, given the byte amounts as text.
pub fn format_progress(
    files_done: u64,
    total_files: u64,
    bytes_text: &str,
    total_bytes_text: &str,
    errors: u64,
) -> (r: String)
    ensures
        r@ == progress_text(files_done, total_files, bytes_text@, total_bytes_text@, errors),
{
    let mut out = String::new();
    append_decimal(&mut out, files_done);
    out.append(" files, total ");
    append_decimal(&mut out, total_files);
    out.append(" files ");
    out.append(total_bytes_text);
    if errors != 0 {
        out.append(" (");
        append_decimal(&mut out, errors);
        out.append(" errors), ");
        out.append(bytes_text);
    }
    proof {
        reveal_strlit(" files, total ");
        reveal_strlit(" files ");
        reveal_strlit(" (");
        reveal_strlit(" errors), ");
        reveal_strlit(" files");
        reveal_strlit(", total ");
        assert(" files, total "@ =~= " files"@ + ", total "@);
    }
    assert(out@ =~= progress_text(files_done, total_files, bytes_text@, total_bytes_text@, errors));
    out
}

/// What became of one hook of a list once it was started.
#[derive(Debug)]
pub enum HookOutcome {
    /// The command ran and exited: whether it succeeded, its exit code and
    /// its standard error.
    Exited { success: bool, code: Option<i32>, stderr: String },
    /// The command could not be started; the reason.
    NotStarted(String),
    /// The wait is over.
    Waited,
}

/// What to do next with a list of hooks.
#[derive(Debug, PartialEq, Eq)]
pub enum HookStep {
    /// Start the hook at this position.
    Run(usize),
    /// Every hook has run and none failed.
    Done,
}

/// Whether a hook's outcome lets the list go on: a wait always does; a
/// command does when it exited successfully, or failed with
/// `continue_on_error`; a command that could not be started never does.
pub open spec fn hook_passes(h: Hook, o: HookOutcome) -> bool {
    match o {
        HookOutcome::Exited { success, .. } => success || (h matches Hook::Command {
            continue_on_error,
            ..
        } && continue_on_error),
        HookOutcome::NotStarted(_) => false,
        HookOutcome::Waited => true,
    }
}

/// Each outcome belongs to the hook at its position: waits to waits,
/// commands to commands.
pub open spec fn outcomes_fit(hooks: Seq<Hook>, outcomes: Seq<HookOutcome>) -> bool {
    &&& outcomes.len() <= hooks.len()
    &&& forall|i: int|
        0 <= i < outcomes.len() ==> ((#[trigger] outcomes[i] is Waited) <==> hooks[i] is Wait)
}

/// The position of the first hook whose outcome stops the list, if any.
pub open spec fn first_failed(hooks: Seq<Hook>, outcomes: Seq<HookOutcome>) -> Option<int>
    decreases outcomes.len(),
{
    if outcomes.len() == 0 {
        None
    } else {
        match first_failed(hooks, outcomes.drop_last()) {
            Some(k) => Some(k),
            None => if hook_passes(hooks[outcomes.len() - 1], outcomes.last()) {
                None
            } else {
                Some(outcomes.len() - 1)
            },
        }
    }
}

/// The error that a failing hook's outcome stops the list with.
pub open spec fn hook_error(hook_type: Seq<char>, h: Hook, o: HookOutcome, e: AppError) -> bool {
    match o {
        HookOutcome::NotStarted(reason) => e matches AppError::Other(m) && m@ == "Failed to execute "@
            + hook_type + " hook: "@ + reason@,
        HookOutcome::Exited { code, stderr, .. } => match h {
            Hook::Command { command, .. } => e matches AppError::Other(m) && exists|t: Seq<char>|
                truncated(stderr@, 4096, "... (truncated)"@, t) && m@ == hook_failure_text(
                    hook_type,
                    command@,
                    exit_code_text(code),
                    t,
                ),
            Hook::Wait { .. } => false,
        },
        HookOutcome::Waited => false,
    }
}

/// Driving a hook list step by step: while no hook has failed, every
/// outcome so far passed; the first failing hook stays the first however
/// many outcomes follow it, so the step after its outcome, and every later
/// one, stops the list with its error and no later hook is started.
pub proof fn lemma_hook_list(hooks: Seq<Hook>, outcomes: Seq<HookOutcome>)
    ensures
        first_failed(hooks, outcomes) is None <==> forall|j: int|
            0 <= j < outcomes.len() ==> hook_passes(hooks[j], #[trigger] outcomes[j]),
        first_failed(hooks, outcomes) matches Some(k) ==> {
            &&& 0 <= k < outcomes.len()
            &&& !hook_passes(hooks[k], outcomes[k])
            &&& forall|j: int| 0 <= j < k ==> hook_passes(hooks[j], #[trigger] outcomes[j])
            &&& forall|n: int|
                k < n <= outcomes.len() ==> #[trigger] first_failed(hooks, outcomes.take(n))
                    == Some(k)
        },
    decreases outcomes.len(),
{
    if outcomes.len() > 0 {
        let prev = outcomes.drop_last();
        lemma_hook_list(hooks, prev);
        assert forall|j: int| 0 <= j < prev.len() implies prev[j] == outcomes[j] by {}
        assert(outcomes.take(outcomes.len() as int) =~= outcomes);
        if let Some(k) = first_failed(hooks, outcomes) {
            assert forall|n: int| k < n <= outcomes.len() implies #[trigger] first_failed(
                hooks,
                outcomes.take(n),
            ) == Some(k) by {
                if n < outcomes.len() {
                    assert(prev.take(n) =~= outcomes.take(n));
                } else {
                    assert(outcomes.take(n) =~= outcomes);
                }
            }
        }
    }
}

/// How many hooks a run starts when each hook, once started, would have
/// the outcome at its position in `results`: up to and including the first
/// failing one, or all of them.
pub open spec fn hooks_started(hooks: Seq<Hook>, results: Seq<HookOutcome>) -> int {
    match first_failed(hooks, results) {
        Some(k) => k + 1,
        None => hooks.len() as int,
    }
}

/// A whole run of a hook list driven by `Backup::next_hook`, where each hook
/// once started has the outcome at its position in `results`: the hooks
/// are started one at a time, in order (after `n` outcomes the step is to
/// start hook `n`), up to the first failing one; the step after that hook
/// stops the run with its error, so no later hook is started, and when no
/// hook fails the run ends after the last one with success. The run
/// succeeds exactly when every command hook passed; a wait always passes.
pub proof fn lemma_hook_run(hooks: Seq<Hook>, results: Seq<HookOutcome>)
    requires
        results.len() == hooks.len(),
        outcomes_fit(hooks, results),
    ensures
        0 <= hooks_started(hooks, results) <= hooks.len(),
        forall|n: int|
            0 <= n < hooks_started(hooks, results) ==> #[trigger] first_failed(hooks, results.take(n))
                is None,
        first_failed(hooks, results.take(hooks_started(hooks, results))) == first_failed(
            hooks,
            results,
        ),
        first_failed(hooks, results) is None <==> forall|i: int|
            0 <= i < hooks.len() ==> hook_passes(hooks[i], #[trigger] results[i]),
        forall|i: int|
            0 <= i < hooks.len() && hooks[i] is Wait ==> hook_passes(hooks[i], #[trigger] results[i]),
{
    lemma_hook_list(hooks, results);
    assert forall|n: int| 0 <= n < hooks_started(hooks, results) implies #[trigger] first_failed(
        hooks,
        results.take(n),
    ) is None by {
        let pre = results.take(n);
        lemma_hook_list(hooks, pre);
        assert forall|j: int| 0 <= j < pre.len() implies hook_passes(hooks[j], #[trigger] pre[j]) by {
            assert(pre[j] == results[j]);
        }
    }
    if first_failed(hooks, results) is None {
        assert(results.take(hooks.len() as int) =~= results);
    }
    assert forall|i: int| 0 <= i < hooks.len() && hooks[i] is Wait implies hook_passes(
        hooks[i],
        #[trigger] results[i],
    ) by {
        assert(results[i] is Waited);
    }
}

/// `Some(n)` or `None`, as `{:?}` renders an optional exit code.
pub open spec fn exit_code_text(code: Option<i32>) -> Seq<char> {
    match code {
        Some(n) => "Some("@ + signed_decimal(n as int) + ")"@,
        None => "None"@,
    }
}

/// Base-ten rendering of an integer, with a leading `-` when negative.
pub open spec fn signed_decimal(n: int) -> Seq<char> {
    if n < 0 {
        "-"@ + crate::text::decimal((-n) as nat)
    } else {
        crate::text::decimal(n as nat)
    }
}

/// The text of a signed integer.
pub fn signed_decimal_string(n: i32) -> (r: String)
    ensures
        r@ == signed_decimal(n as int),
{
    if n < 0 {
        let m: u64 = (-(n as i64)) as u64;
        concat2("-", crate::text::decimal_string(m).as_str())
    } else {
        crate::text::decimal_string(n as u64)
    }
}

fn exit_code_string(code: Option<i32>) -> (r: String)
    ensures
        r@ == exit_code_text(code),
{
    match code {
        Some(n) => concat3("Some(", signed_decimal_string(n).as_str(), ")"),
        None => String::from_str("None"),
    }
}

impl Backup {
    /// What a backup run of `job_name` uses: the job, its repository and
    /// password, and its hooks unless this is a dry run, which writes no
    /// data and so runs no hooks.
    pub fn plan<'a>(config: &'a ResolvedConfig, job_name: &str, dry_run: bool) -> (r: Result<
        BackupPlan<'a>,
        AppError,
    >)
        ensures
            fails_with_other(r, job_resolution_problem(*config, job_name@)),
            r matches Ok(p) ==> {
                &&& *p.job == job_of(*config, job_name@)
                &&& *p.repository == repo_of_job(*config, job_name@)
                &&& p.password@ == password_of_job(*config, job_name@)
                &&& p.dry_run == dry_run
                &&& dry_run ==> p.pre_hooks@.len() == 0 && p.post_hooks@.len() == 0
                &&& !dry_run ==> p.pre_hooks@ == p.job.pre_backup@ && p.post_hooks@
                    == p.job.post_backup@
            },
    {
        let (job, repository, password) = match config.resolve_job(job_name) {
            Ok(t) => t,
            Err(e) => {
                return Err(e);
            },
        };
        let (pre_hooks, post_hooks): (&[Hook], &[Hook]) = if dry_run {
            (&[], &[])
        } else {
            (job.pre_backup.as_slice(), job.post_backup.as_slice())
        };
        Ok(BackupPlan { job, repository, password, dry_run, pre_hooks, post_hooks })
    }

    /// The `restic backup` invocation of a plan, with the exclude file
    /// chosen for the job, logging its output where the repository says.
    pub fn backup_command(plan: &BackupPlan, exclude_file: Option<&str>) -> (r: ResticCommand)
        ensures
            views(r.args@) == backup_args(
                plan.repository.repo@,
                opt_str_view(exclude_file),
                views(plan.job.paths@),
                plan.dry_run,
            ),
            r.password@ == plan.password@,
            r.log_file == plan.repository.log_cli_output,
    {
        let mut args: Vec<String> = Vec::new();
        push_arg(&mut args, "backup");
        if plan.dry_run {
            push_arg(&mut args, "--dry-run");
        }
        push_arg(&mut args, "--json");
        push_arg(&mut args, "--repo");
        push_arg(&mut args, plan.repository.repo.as_str());
        match exclude_file {
            Some(f) => {
                push_arg(&mut args, "--exclude-file");
                push_arg(&mut args, f);
            },
            None => {},
        }
        let ghost head = views(args@);
        let paths = &plan.job.paths;
        let mut i: usize = 0;
        while i < paths.len()
            invariant
                i <= paths@.len(),
                views(args@) == head + views(paths@).take(i as int),
            decreases paths@.len() - i,
        {
            push_arg_string(&mut args, path_to_arg(paths[i].as_str()));
            assert(views(paths@).take(i + 1) =~= views(paths@).take(i as int).push(paths@[i as int]@));
            i = i + 1;
        }
        assert(views(paths@).take(paths@.len() as int) =~= views(paths@));
        assert(views(args@) =~= backup_args(
            plan.repository.repo@,
            opt_str_view(exclude_file),
            views(plan.job.paths@),
            plan.dry_run,
        ));
        ResticCommand {
            args,
            password: String::from_str(plan.password),
            log_file: plan.repository.log_cli_output.clone(),
        }
    }

    /// The outcome of a hook command that ran: success passes; a failure
    /// passes only with `continue_on_error`, otherwise it aborts the run
    /// with the exit code and the capped standard error.
    pub fn hook_result(
        hook_type: &str,
        command: &str,
        continue_on_error: bool,
        success: bool,
        code: Option<i32>,
        stderr: &str,
    ) -> (r: Result<(), AppError>)
        ensures
            (success || continue_on_error) <==> r is Ok,
            r matches Err(e) ==> (e matches AppError::Other(m) && exists|t: Seq<char>|
                truncated(stderr@, 4096, "... (truncated)"@, t) && m@ == hook_failure_text(
                    hook_type@,
                    command@,
                    exit_code_text(code),
                    t,
                )),
    {
        if success || continue_on_error {
            return Ok(());
        }
        let capped = Self::truncate_hook_stderr(stderr);
        let mut m = String::from_str(hook_type);
        m.append(" hook '");
        m.append(command);
        m.append("' failed (exit ");
        m.append(exit_code_string(code).as_str());
        m.append("): ");
        m.append(capped.as_str());
        Err(AppError::Other(m))
    }

    /// The error for a hook command that could not be started.
    pub fn hook_spawn_failure(hook_type: &str, reason: &str) -> (r: AppError)
        ensures
            r matches AppError::Other(m) && m@ == "Failed to execute "@ + hook_type@ + " hook: "@
                + reason@,
    {
        let mut m = String::from_str("Failed to execute ");
        m.append(hook_type);
        m.append(" hook: ");
        m.append(reason);
        AppError::Other(m)
    }

    /// The next step with a list of hooks, given the outcomes of those run so
    /// far, in order: the first hook whose outcome stops the list gives its
    /// error (a command that could not be started, or that failed without
    /// `continue_on_error`); otherwise the next hook is started, or the list
    /// is done when all have run.
    pub fn next_hook(hooks: &[Hook], hook_type: &str, outcomes: &Vec<HookOutcome>) -> (r: Result<
        HookStep,
        AppError,
    >)
        requires
            outcomes_fit(hooks@, outcomes@),
        ensures
            match first_failed(hooks@, outcomes@) {
                None => r == Ok::<HookStep, AppError>(
                    if outcomes@.len() < hooks@.len() {
                        HookStep::Run(outcomes@.len() as usize)
                    } else {
                        HookStep::Done
                    },
                ),
                Some(k) => r matches Err(e) && hook_error(hook_type@, hooks@[k], outcomes@[k], e),
            },
    {
        let n = outcomes.len();
        let mut i: usize = 0;
        while i < n
            invariant
                n == outcomes@.len(),
                i <= n,
                outcomes_fit(hooks@, outcomes@),
                first_failed(hooks@, outcomes@.take(i as int)) is None,
            decreases n - i,
        {
            let ghost next = outcomes@.take(i as int + 1);
            proof {
                assert(next.drop_last() =~= outcomes@.take(i as int));
                assert(next.last() == outcomes@[i as int]);
                lemma_hook_list(hooks@, outcomes@);
            }
            match &outcomes[i] {
                HookOutcome::Waited => {},
                HookOutcome::NotStarted(reason) => {
                    proof {
                        assert(first_failed(hooks@, next) == Some(i as int));
                    }
                    return Err(Self::hook_spawn_failure(hook_type, reason.as_str()));
                },
                HookOutcome::Exited { success, code, stderr } => {
                    match &hooks[i] {
                        Hook::Command { command, continue_on_error, .. } => {
                            let step = Self::hook_result(
                                hook_type,
                                command.as_str(),
                                *continue_on_error,
                                *success,
                                *code,
                                stderr.as_str(),
                            );
                            if let Err(e) = step {
                                proof {
                                    assert(first_failed(hooks@, next) == Some(i as int));
                                }
                                return Err(e);
                            }
                        },
                        Hook::Wait { .. } => {},
                    }
                },
            }
            i = i + 1;
        }
        proof {
            assert(outcomes@.take(n as int) =~= outcomes@);
        }
        if n < hooks.len() {
            Ok(HookStep::Run(n))
        } else {
            Ok(HookStep::Done)
        }
    }

    /// The result of a finished backup run: exit code 3 means a partial
    /// backup whose snapshot was still made; any other failure carries
    /// restic's standard error; otherwise the summary is read from the
    /// lines seen, marked partial or not, with the highest error count.
    pub fn finish(progress: &BackupProgress, success: bool, code: Option<i32>, stderr: &str) -> (r:
        Result<BackupResult, AppError>)
        ensures
            (!success && code != Some(3i32)) ==> (r matches Err(
                AppError::Restic(ResticError::CommandFailed(m)),
            ) && m@ == stderr@),
            (success || code == Some(3i32)) ==> match r {
                Ok(res) => {
                    &&& backup_parsed(
                        joined(progress.lines@.map_values(|x: String| x@), "\n"@),
                        Ok(BackupResult { partial: false, errors_count: 0, ..res }),
                    )
                    &&& res.partial == (code == Some(3i32))
                    &&& res.errors_count == progress.errors_count
                },
                Err(e) => backup_parsed(
                    joined(progress.lines@.map_values(|x: String| x@), "\n"@),
                    Err(e),
                ),
            },
    {
        let partial = match code {
            Some(c) => c == 3,
            None => false,
        };
        if !success && !partial {
            return Err(AppError::Restic(ResticError::CommandFailed(String::from_str(stderr))));
        }
        let output = join_strings(&progress.lines, "\n");
        match Self::parse_backup_output(output.as_str()) {
            Ok(res) => Ok(BackupResult { partial, errors_count: progress.errors_count, ..res }),
            Err(e) => Err(e),
        }
    }
}

impl BackupProgress {
    /// Nothing read yet.
    pub fn new() -> (r: Self)
        ensures
            r.lines@.len() == 0,
            r.errors_count == 0,
            !r.finished,
    {
        BackupProgress { lines: Vec::new(), errors_count: 0, finished: false }
    }

    /// Reads one line of the progress stream: records it, keeps the highest
    /// error count of status messages, and notes the summary.
    pub fn observe(&mut self, line: String) -> (e: ProgressEvent)
        ensures
            final(self).lines@ == old(self).lines@.push(line),
            progress_event(line@, e),
            final(self).errors_count == match e {
                ProgressEvent::Status { errors, .. } => if errors > old(self).errors_count {
                    errors
                } else {
                    old(self).errors_count
                },
                _ => old(self).errors_count,
            },
            final(self).finished == (old(self).finished || e is Summary),
    {
        let event = Self::classify(line.as_str());
        match &event {
            ProgressEvent::Status { errors, .. } => {
                if *errors > self.errors_count {
                    self.errors_count = *errors;
                }
            },
            ProgressEvent::Summary => {
                self.finished = true;
            },
            _ => {},
        }
        self.lines.push(line);
        event
    }

    fn classify(line: &str) -> (e: ProgressEvent)
        ensures
            progress_event(line@, e),
    {
        match parse_json(line) {
            Ok(v) => Self::event_from_json(&v),
            Err(_) => ProgressEvent::Ignored,
        }
    }

    /// The event that a parsed progress message is.
    pub fn event_from_json(v: &JsonValue) -> (e: ProgressEvent)
        ensures
            json_event(*v, e),
    {
        let t = match str_field(v, "message_type") {
            Some(t) => t,
            None => {
                return ProgressEvent::Ignored;
            },
        };
        if str_eq(t.as_str(), "status") {
            ProgressEvent::Status {
                files_done: Self::count(v, "files_done"),
                total_files: Self::count(v, "total_files"),
                bytes_done: Self::count(v, "bytes_done"),
                total_bytes: Self::count(v, "total_bytes"),
                errors: Self::count(v, "error_count"),
            }
        } else if str_eq(t.as_str(), "verbose_status") {
            match str_field(v, "item") {
                Some(item) => {
                    let action = match str_field(v, "action") {
                        Some(a) => a.clone(),
                        None => String::new(),
                    };
                    ProgressEvent::Verbose { action, item: item.clone() }
                },
                None => ProgressEvent::Ignored,
            }
        } else if str_eq(t.as_str(), "summary") {
            ProgressEvent::Summary
        } else {
            ProgressEvent::Ignored
        }
    }

    fn count(v: &JsonValue, key: &str) -> (r: u64)
        ensures
            r == count_of(field(*v, key@)),
    {
        match u64_field(v, key) {
            Some(n) => n,
            None => 0,
        }
    }
}

} // verus!
