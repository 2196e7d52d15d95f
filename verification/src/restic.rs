//! Invocations of the `restic` command, described as data, and the
//! interpretation of what a finished invocation reported.

use vstd::prelude::*;
use crate::errors::{AppError, ResticError};

verus! {

/// The text of each string, in order.
pub open spec fn views(v: Seq<String>) -> Seq<Seq<char>> {
    v.map_values(|s: String| s@)
}

/// A `restic` invocation: the arguments after the program name, the
/// repository password (passed in `RESTIC_PASSWORD`), and where to log its
/// output, if anywhere.
#[derive(Clone)]
pub struct ResticCommand {
    pub args: Vec<String>,
    pub password: String,
    pub log_file: Option<String>,
}

/// What a finished command reported.
#[derive(Debug, Clone)]
pub struct CommandOutput {
    /// True when the command exited with status zero.
    pub success: bool,
    /// The exit code, if the command exited normally.
    pub code: Option<i32>,
    pub stdout: String,
    pub stderr: String,
}

/// `r` is the failure of a command that reported `output`.
pub open spec fn fails_with_stderr<T>(r: Result<T, AppError>, output: CommandOutput) -> bool {
    match r {
        Err(AppError::Restic(ResticError::CommandFailed(m))) => m@ == output.stderr@,
        _ => false,
    }
}

/// The error for a command that failed: restic's standard error output.
pub fn command_failure(output: &CommandOutput) -> (r: AppError)
    ensures
        r matches AppError::Restic(ResticError::CommandFailed(m)) && m@ == output.stderr@,
{
    AppError::Restic(ResticError::CommandFailed(output.stderr.clone()))
}

/// Views of a pushed vector.
pub proof fn lemma_views_push(v: Seq<String>, x: String)
    ensures
        views(v.push(x)) == views(v).push(x@),
{
    assert(views(v.push(x)) =~= views(v).push(x@));
}

/// Appends an argument.
pub fn push_arg(args: &mut Vec<String>, a: &str)
    ensures
        views(final(args)@) == views(old(args)@).push(a@),
{
    let ghost before = args@;
    args.push(String::from_str(a));
    proof {
        lemma_views_push(before, args@.last());
        assert(args@ =~= before.push(args@.last()));
    }
}

/// Appends an argument held in a string.
pub fn push_arg_string(args: &mut Vec<String>, a: String)
    ensures
        views(final(args)@) == views(old(args)@).push(a@),
{
    let ghost before = args@;
    let ghost v = a@;
    args.push(a);
    proof {
        lemma_views_push(before, args@.last());
        assert(args@ =~= before.push(args@.last()));
    }
}

} // verus!
