//! Restoring a job's snapshots: the `restic` invocations and the reading
//! of their results.

use vstd::prelude::*;
use crate::config::{ResolvedConfig, fails_with_other, job_resolution_problem, password_of_job, repo_of_job};
use crate::errors::AppError;
use crate::json::{JsonValue, field, parse_json_array, parsed_json_array, str_field, str_of};
use crate::restic::{CommandOutput, ResticCommand, command_failure, fails_with_stderr, push_arg, views};
use crate::text::{concat2, trim, trimmed};

verus! {

/// Restore operations.
pub struct Restore;

/// The next thing a restore needs done.
pub enum RestoreStep {
    /// Run this command to find the job's latest snapshot.
    FindLatest(ResticCommand),
    /// Run this command to restore the given snapshot.
    Restore(ResticCommand, String),
}

/// The arguments of `restic snapshots` that list only the latest snapshot.
pub open spec fn latest_args(repo: Seq<char>) -> Seq<Seq<char>> {
    seq!["snapshots"@, "--json"@, "--latest"@, "1"@, "--repo"@, repo]
}

/// The arguments of `restic restore` for a snapshot and a target directory.
pub open spec fn restore_args(repo: Seq<char>, target: Seq<char>, snapshot: Seq<char>) -> Seq<
    Seq<char>,
> {
    seq!["restore"@, "--repo"@, repo, "--target"@, target, snapshot]
}

/// `cmd` runs restic with `args` against the repository of job `name`,
/// with its password, and logs nothing.
pub open spec fn restores_for_job(
    cmd: ResticCommand,
    rc: ResolvedConfig,
    name: Seq<char>,
    args: Seq<Seq<char>>,
) -> bool {
    &&& views(cmd.args@) == args
    &&& cmd.password@ == password_of_job(rc, name)
    &&& cmd.log_file is None
}

/// The outcome of reading the latest snapshot from `restic snapshots
/// --json --latest 1` output: the id of the first listed snapshot.
pub open spec fn latest_parsed(output: Seq<char>, r: Result<String, AppError>) -> bool {
    match parsed_json_array(output) {
        Ok(values) => latest_in(values@, r),
        Err(e) => r matches Err(AppError::Other(m)) && m@ == "Failed to parse snapshots JSON: "@
            + e@,
    }
}

/// The id of the first listed snapshot, or the error for a listing
/// without one.
pub open spec fn latest_in(values: Seq<JsonValue>, r: Result<String, AppError>) -> bool {
    if values.len() > 0 && str_of(field(values[0], "id"@)) is Some {
        r matches Ok(id) && id@ == str_of(field(values[0], "id"@)).unwrap()
    } else {
        r matches Err(AppError::Other(m)) && m@ == "No snapshots found"@
    }
}

impl Restore {
    /// The `restic snapshots` invocation that finds a job's latest
    /// snapshot.
    pub fn latest_command(config: &ResolvedConfig, job_name: &str) -> (r: Result<
        ResticCommand,
        AppError,
    >)
        ensures
            fails_with_other(r, job_resolution_problem(*config, job_name@)),
            r matches Ok(cmd) ==> restores_for_job(
                cmd,
                *config,
                job_name@,
                latest_args(repo_of_job(*config, job_name@).repo@),
            ),
    {
        let (_job, repo, password) = match config.resolve_job(job_name) {
            Ok(t) => t,
            Err(e) => {
                return Err(e);
            },
        };
        let mut args: Vec<String> = Vec::new();
        push_arg(&mut args, "snapshots");
        push_arg(&mut args, "--json");
        push_arg(&mut args, "--latest");
        push_arg(&mut args, "1");
        push_arg(&mut args, "--repo");
        push_arg(&mut args, repo.repo.as_str());
        assert(views(args@) =~= latest_args(repo.repo@));
        Ok(ResticCommand { args, password: String::from_str(password), log_file: None })
    }

    /// Reads the trimmed output of `restic snapshots --json --latest 1`:
    /// the id of the first snapshot listed.
    pub fn parse_latest(output: &str) -> (r: Result<String, AppError>)
        ensures
            latest_parsed(output@, r),
    {
        match parse_json_array(output) {
            Ok(values) => Self::latest_from_json(&values),
            Err(e) => Err(AppError::Other(concat2("Failed to parse snapshots JSON: ", e.as_str()))),
        }
    }

    /// The id of the first snapshot of a parsed listing.
    pub fn latest_from_json(values: &Vec<JsonValue>) -> (r: Result<String, AppError>)
        ensures
            latest_in(values@, r),
    {
        if values.len() == 0 {
            return Err(AppError::Other(String::from_str("No snapshots found")));
        }
        match str_field(&values[0], "id") {
            Some(id) => Ok(id.clone()),
            None => Err(AppError::Other(String::from_str("No snapshots found"))),
        }
    }

    /// Reads a finished `restic snapshots --json --latest 1`: a failure
    /// carries restic's standard error; otherwise the latest snapshot id.
    pub fn latest_result(output: &CommandOutput) -> (r: Result<String, AppError>)
        ensures
            !output.success ==> fails_with_stderr(r, *output),
            output.success ==> latest_parsed(trimmed(output.stdout@), r),
    {
        if !output.success {
            return Err(command_failure(output));
        }
        let text = trim(output.stdout.as_str());
        Self::parse_latest(text.as_str())
    }

    /// Restores a given snapshot of a job into `target`: the `restic
    /// restore` invocation.
    pub fn restore_snapshot(
        config: &ResolvedConfig,
        job_name: &str,
        snapshot_id: &str,
        target: &str,
    ) -> (r: Result<ResticCommand, AppError>)
        ensures
            fails_with_other(r, job_resolution_problem(*config, job_name@)),
            r matches Ok(cmd) ==> restores_for_job(
                cmd,
                *config,
                job_name@,
                restore_args(repo_of_job(*config, job_name@).repo@, target@, snapshot_id@),
            ),
    {
        let (_job, repo, password) = match config.resolve_job(job_name) {
            Ok(t) => t,
            Err(e) => {
                return Err(e);
            },
        };
        let mut args: Vec<String> = Vec::new();
        push_arg(&mut args, "restore");
        push_arg(&mut args, "--repo");
        push_arg(&mut args, repo.repo.as_str());
        push_arg(&mut args, "--target");
        push_arg(&mut args, target);
        push_arg(&mut args, snapshot_id);
        assert(views(args@) =~= restore_args(repo.repo@, target@, snapshot_id@));
        Ok(ResticCommand { args, password: String::from_str(password), log_file: None })
    }

    /// Restores the latest snapshot of a job into `target`, one step at a
    /// time: first find the latest snapshot; once that command's output is
    /// given, restore the snapshot it names.
    pub fn restore_latest(
        config: &ResolvedConfig,
        job_name: &str,
        target: &str,
        found: Option<&CommandOutput>,
    ) -> (r: Result<RestoreStep, AppError>)
        ensures
            job_resolution_problem(*config, job_name@) is Some ==> fails_with_other(
                r,
                job_resolution_problem(*config, job_name@),
            ),
            found is None ==> fails_with_other(r, job_resolution_problem(*config, job_name@)),
            found is None ==> (r matches Ok(step) ==> step matches RestoreStep::FindLatest(cmd)
                && restores_for_job(
                cmd,
                *config,
                job_name@,
                latest_args(repo_of_job(*config, job_name@).repo@),
            )),
            found matches Some(out) ==> job_resolution_problem(*config, job_name@) is None
                ==> !out.success ==> fails_with_stderr(r, *out),
            found matches Some(out) ==> job_resolution_problem(*config, job_name@) is None
                ==> out.success ==> match r {
                Ok(step) => step matches RestoreStep::Restore(cmd, id) && latest_parsed(
                    trimmed(out.stdout@),
                    Ok::<String, AppError>(id),
                ) && restores_for_job(
                    cmd,
                    *config,
                    job_name@,
                    restore_args(repo_of_job(*config, job_name@).repo@, target@, id@),
                ),
                Err(e) => latest_parsed(trimmed(out.stdout@), Err::<String, AppError>(e)),
            },
    {
        match found {
            None => match Self::latest_command(config, job_name) {
                Ok(cmd) => Ok(RestoreStep::FindLatest(cmd)),
                Err(e) => Err(e),
            },
            Some(out) => {
                match config.resolve_job(job_name) {
                    Ok(_) => {},
                    Err(e) => {
                        return Err(e);
                    },
                }
                let id = match Self::latest_result(out) {
                    Ok(id) => id,
                    Err(e) => {
                        return Err(e);
                    },
                };
                match Self::restore_snapshot(config, job_name, id.as_str(), target) {
                    Ok(cmd) => Ok(RestoreStep::Restore(cmd, id)),
                    Err(e) => Err(e),
                }
            },
        }
    }

    /// Reads a finished `restic restore`: a failure carries restic's
    /// standard error.
    pub fn restore_result(output: &CommandOutput) -> (r: Result<(), AppError>)
        ensures
            output.success <==> r is Ok,
            !output.success ==> fails_with_stderr(r, *output),
    {
        if !output.success {
            return Err(command_failure(output));
        }
        Ok(())
    }
}

} // verus!
