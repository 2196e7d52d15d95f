//! Repository maintenance: `restic init`, `check` and `unlock`, and what
//! each reports when it succeeds.

use vstd::prelude::*;
use crate::config::{ResolvedConfig, fails_with_other, repo_password, repo_resolution_problem};
use crate::errors::AppError;
use crate::restic::{CommandOutput, ResticCommand, command_failure, fails_with_stderr, push_arg, views};
use crate::text::concat3;

verus! {

/// Repository maintenance operations.
pub struct Repository;

/// A maintenance operation on a repository.
#[derive(Debug, Clone, Copy, PartialEq, Eq, Structural)]
pub enum Maintenance {
    Init,
    Check,
    Unlock,
}

/// The arguments of the `restic` invocation for an operation.
pub open spec fn maintenance_args(op: Maintenance, repo: Seq<char>) -> Seq<Seq<char>> {
    match op {
        Maintenance::Init => seq!["init"@, "--repo"@, repo],
        Maintenance::Check => seq!["check"@, "--repo"@, repo],
        Maintenance::Unlock => seq!["unlock"@, "--repo"@, repo, "--remove-all"@],
    }
}

/// What a successful operation reports.
pub open spec fn maintenance_report(op: Maintenance, name: Seq<char>, repo: Seq<char>) -> Seq<char> {
    match op {
        Maintenance::Init => "Repository '"@ + name + "' initialized successfully\n  Path: "@ + repo,
        Maintenance::Check => "Repository '"@ + name + "' check passed"@,
        Maintenance::Unlock => "Repository '"@ + name + "' unlocked successfully"@,
    }
}

/// `cmd` runs the operation on repository `name` with its password and
/// logs nothing.
pub open spec fn maintains(cmd: ResticCommand, rc: ResolvedConfig, name: Seq<char>, op: Maintenance) -> bool {
    &&& views(cmd.args@) == maintenance_args(op, rc.config.repositories@[name].repo@)
    &&& cmd.password@ == repo_password(rc, name).unwrap()
    &&& cmd.log_file is None
}

impl Repository {
    /// The `restic` invocation of an operation on repository `repo_name`.
    pub fn command(config: &ResolvedConfig, repo_name: &str, op: Maintenance) -> (r: Result<
        ResticCommand,
        AppError,
    >)
        ensures
            fails_with_other(r, repo_resolution_problem(*config, repo_name@)),
            r matches Ok(cmd) ==> maintains(cmd, *config, repo_name@, op),
    {
        let (repo, password) = match config.resolve_repo(repo_name) {
            Ok(t) => t,
            Err(e) => {
                return Err(e);
            },
        };
        let mut args: Vec<String> = Vec::new();
        match op {
            Maintenance::Init => push_arg(&mut args, "init"),
            Maintenance::Check => push_arg(&mut args, "check"),
            Maintenance::Unlock => push_arg(&mut args, "unlock"),
        }
        push_arg(&mut args, "--repo");
        push_arg(&mut args, repo.repo.as_str());
        if op == Maintenance::Unlock {
            push_arg(&mut args, "--remove-all");
        }
        assert(views(args@) =~= maintenance_args(op, repo.repo@));
        Ok(ResticCommand { args, password: String::from_str(password), log_file: None })
    }

    /// Initializes repository `repo_name`: the `restic init` invocation.
    pub fn init(config: &ResolvedConfig, repo_name: &str) -> (r: Result<ResticCommand, AppError>)
        ensures
            fails_with_other(r, repo_resolution_problem(*config, repo_name@)),
            r matches Ok(cmd) ==> maintains(cmd, *config, repo_name@, Maintenance::Init),
    {
        Self::command(config, repo_name, Maintenance::Init)
    }

    /// Checks repository `repo_name`: the `restic check` invocation.
    pub fn check(config: &ResolvedConfig, repo_name: &str) -> (r: Result<ResticCommand, AppError>)
        ensures
            fails_with_other(r, repo_resolution_problem(*config, repo_name@)),
            r matches Ok(cmd) ==> maintains(cmd, *config, repo_name@, Maintenance::Check),
    {
        Self::command(config, repo_name, Maintenance::Check)
    }

    /// Removes all locks of repository `repo_name`: the `restic unlock
    /// --remove-all` invocation.
    pub fn unlock(config: &ResolvedConfig, repo_name: &str) -> (r: Result<ResticCommand, AppError>)
        ensures
            fails_with_other(r, repo_resolution_problem(*config, repo_name@)),
            r matches Ok(cmd) ==> maintains(cmd, *config, repo_name@, Maintenance::Unlock),
    {
        Self::command(config, repo_name, Maintenance::Unlock)
    }

    /// Reads a finished operation: on success, the lines it reports (the
    /// repository's path for `init`); on failure, restic's standard error.
    pub fn outcome(
        op: Maintenance,
        repo_name: &str,
        repo_path: &str,
        output: &CommandOutput,
    ) -> (r: Result<String, AppError>)
        ensures
            output.success <==> r is Ok,
            r matches Ok(m) ==> m@ == maintenance_report(op, repo_name@, repo_path@),
            !output.success ==> fails_with_stderr(r, *output),
    {
        if !output.success {
            return Err(command_failure(output));
        }
        let r = match op {
            Maintenance::Init => {
                let mut m = concat3("Repository '", repo_name, "' initialized successfully\n  Path: ");
                m.append(repo_path);
                m
            },
            Maintenance::Check => concat3("Repository '", repo_name, "' check passed"),
            Maintenance::Unlock => concat3("Repository '", repo_name, "' unlocked successfully"),
        };
        Ok(r)
    }
}

} // verus!
