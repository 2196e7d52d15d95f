//! Exclude files: the default pattern list, where exclude files live, and
//! which exclude file a backup job uses.

use vstd::prelude::*;
use crate::config::Job;
use crate::text::{join_path, path_join, concat2};

verus! {

/// The default exclude patterns, one per line, with comments.
pub open spec fn default_excludes() -> Seq<char> {
    "# Restic exclude patterns
# https://restic.readthedocs.io/en/latest/040_backup.html#excluding-files

# Cache directories
.cache
.local/share/Trash

# Package managers
node_modules
.npm
.bun

# Version control
.git

# Virtual environments
.venv
venv

# Python
__pycache__
*.pyc

# Rust
.cargo/registry
.rustup

# IDE
.vscode/extensions
.vscode/configurations

# OS caches
Library/Caches
AppData/Local/Cache
"@
}

/// The content written to a new default exclude file.
pub fn default_exclude_content() -> (r: &'static str)
    ensures
        r@ == default_excludes(),
{
    "# Restic exclude patterns
# https://restic.readthedocs.io/en/latest/040_backup.html#excluding-files

# Cache directories
.cache
.local/share/Trash

# Package managers
node_modules
.npm
.bun

# Version control
.git

# Virtual environments
.venv
venv

# Python
__pycache__
*.pyc

# Rust
.cargo/registry
.rustup

# IDE
.vscode/extensions
.vscode/configurations

# OS caches
Library/Caches
AppData/Local/Cache
"
}

/// The user's configuration directory, as text.
///
/// Trusted: `dirs::config_dir` (the platform's per-user configuration
/// directory, from the environment), with its `PathBuf` rendered by
/// `to_string_lossy`. It depends on the environment, so nothing is stated
/// of it.
#[verifier::external_body]
fn user_config_dir() -> Option<String> {
    dirs::config_dir().map(|p| p.to_string_lossy().into_owned())
}

/// An I/O error of kind `NotFound` with the given message.
///
/// Trusted: `std::io::Error::new`; the error is opaque here, so nothing
/// is stated of it.
#[verifier::external_body]
pub(crate) fn not_found_io_error(message: &str) -> std::io::Error {
    std::io::Error::new(std::io::ErrorKind::NotFound, message.to_string())
}

/// The directory of this application's files inside a configuration
/// directory.
pub fn config_dir_in(base: &str) -> (r: String)
    ensures
        r@ == path_join(base@, "restic-manager"@),
{
    join_path(base, "restic-manager")
}

/// The directory of this application's files: `restic-manager` inside the
/// user's configuration directory; an error of kind `NotFound` when the
/// platform has none.
pub fn config_dir() -> (r: Result<String, std::io::Error>)
    ensures
        r matches Ok(p) ==> exists|base: Seq<char>| p@ == path_join(base, "restic-manager"@),
{
    match user_config_dir() {
        Some(base) => Ok(config_dir_in(base.as_str())),
        None => Err(not_found_io_error("Cannot find config directory")),
    }
}

/// The default exclude file: `excludes.txt` in the application directory.
pub fn exclude_file_path() -> (r: Result<String, std::io::Error>)
    ensures
        r matches Ok(p) ==> exists|base: Seq<char>|
            p@ == path_join(path_join(base, "restic-manager"@), "excludes.txt"@),
{
    match config_dir() {
        Ok(dir) => Ok(join_path(dir.as_str(), "excludes.txt")),
        Err(e) => Err(e),
    }
}

/// The directory of per-job exclude files: `excludes.d` in the
/// application directory.
pub fn exclude_d_dir() -> (r: Result<String, std::io::Error>)
    ensures
        r matches Ok(p) ==> exists|base: Seq<char>|
            p@ == path_join(path_join(base, "restic-manager"@), "excludes.d"@),
{
    match config_dir() {
        Ok(dir) => Ok(join_path(dir.as_str(), "excludes.d")),
        Err(e) => Err(e),
    }
}

/// The file that holds a job's own exclude patterns: `<job>.txt` in the
/// per-job directory.
pub fn job_excludes_path(dir: &str, job_name: &str) -> (r: String)
    ensures
        r@ == path_join(dir@, job_name@ + ".txt"@),
{
    let file = concat2(job_name, ".txt");
    join_path(dir, file.as_str())
}

/// The patterns, each followed by a newline.
pub open spec fn lines_of(patterns: Seq<String>) -> Seq<char>
    decreases patterns.len(),
{
    if patterns.len() == 0 {
        Seq::empty()
    } else {
        lines_of(patterns.drop_last()) + patterns.last()@ + "\n"@
    }
}

/// The content of a job's exclude file: one pattern per line.
pub fn job_excludes_content(patterns: &Vec<String>) -> (r: String)
    ensures
        r@ == lines_of(patterns@),
{
    let mut r = String::new();
    let mut i: usize = 0;
    while i < patterns.len()
        invariant
            i <= patterns@.len(),
            r@ == lines_of(patterns@.take(i as int)),
        decreases patterns@.len() - i,
    {
        r.append(patterns[i].as_str());
        r.append("\n");
        proof {
            assert(patterns@.take(i + 1).drop_last() =~= patterns@.take(i as int));
        }
        i = i + 1;
    }
    assert(patterns@.take(patterns@.len() as int) =~= patterns@);
    r
}

/// What resolving a job's exclude file needs next, or its answer.
#[derive(Debug, Clone, PartialEq, Eq)]
pub enum ExcludeStep {
    /// Report whether a file exists at this path.
    CheckExists(String),
    /// Write this content as the job's own exclude file; report the path
    /// written, or none if writing failed.
    WriteJobExcludes(String),
    /// Report the default exclude file's path if that file exists.
    FindDefault,
    /// The exclude file to use, if any.
    Done(Option<String>),
}

/// An answer to the step asked for.
#[derive(Debug, Clone, PartialEq, Eq)]
pub enum ExcludeAnswer {
    Exists(bool),
    Written(Option<String>),
    Default(Option<String>),
}

/// The patterns a job writes to its own exclude file, if it has any.
pub open spec fn pattern_lines(job: Job) -> Option<Seq<char>> {
    match job.exclude_patterns {
        Some(p) => if p@.len() > 0 {
            Some(lines_of(p@))
        } else {
            None
        },
        None => None,
    }
}

/// The step asked for, in terms of text.
pub enum ExcludeNext {
    CheckExists(Seq<char>),
    WriteJobExcludes(Seq<char>),
    FindDefault,
    Done(Option<Seq<char>>),
}

/// The text form of a step.
pub open spec fn step_view(s: ExcludeStep) -> ExcludeNext {
    match s {
        ExcludeStep::CheckExists(p) => ExcludeNext::CheckExists(p@),
        ExcludeStep::WriteJobExcludes(c) => ExcludeNext::WriteJobExcludes(c@),
        ExcludeStep::FindDefault => ExcludeNext::FindDefault,
        ExcludeStep::Done(Some(p)) => ExcludeNext::Done(Some(p@)),
        ExcludeStep::Done(None) => ExcludeNext::Done(None),
    }
}

/// The step of the third stage, the default exclude file, whose answer
/// sits at position `k`.
pub open spec fn default_stage(answers: Seq<ExcludeAnswer>, k: int) -> ExcludeNext {
    if answers.len() <= k {
        ExcludeNext::FindDefault
    } else {
        match answers[k] {
            ExcludeAnswer::Default(Some(p)) => ExcludeNext::Done(Some(p@)),
            _ => ExcludeNext::Done(None),
        }
    }
}

/// The step of the second stage, the job's own patterns, whose answer sits
/// at position `k`.
pub open spec fn patterns_stage(job: Job, answers: Seq<ExcludeAnswer>, k: int) -> ExcludeNext {
    match pattern_lines(job) {
        Some(content) => if answers.len() <= k {
            ExcludeNext::WriteJobExcludes(content)
        } else {
            match answers[k] {
                ExcludeAnswer::Written(Some(path)) => ExcludeNext::Done(Some(path@)),
                _ => default_stage(answers, k + 1),
            }
        },
        None => default_stage(answers, k),
    }
}

/// The step to take given the answers so far: the job's explicit exclude
/// file if it exists, else the job's own patterns if they can be written,
/// else the default exclude file if it exists.
pub open spec fn exclude_step(job: Job, answers: Seq<ExcludeAnswer>) -> ExcludeNext {
    match job.exclude_file {
        Some(path) => if answers.len() == 0 {
            ExcludeNext::CheckExists(path@)
        } else if answers[0] == ExcludeAnswer::Exists(true) {
            ExcludeNext::Done(Some(path@))
        } else {
            patterns_stage(job, answers, 1)
        },
        None => patterns_stage(job, answers, 0),
    }
}

/// The answers a run collects when the explicit exclude file exists or not
/// (`exists`), writing the job's patterns gives `written`, and the default
/// exclude file is `default` (its path if it exists); each question asked is
/// answered once, in order, until the choice is made.
pub open spec fn run_answers(
    job: Job,
    exists: bool,
    written: Option<String>,
    default: Option<String>,
) -> Seq<ExcludeAnswer> {
    let rest = match pattern_lines(job) {
        Some(_) => match written {
            Some(_) => seq![ExcludeAnswer::Written(written)],
            None => seq![ExcludeAnswer::Written(written), ExcludeAnswer::Default(default)],
        },
        None => seq![ExcludeAnswer::Default(default)],
    };
    match job.exclude_file {
        Some(_) => if exists {
            seq![ExcludeAnswer::Exists(true)]
        } else {
            seq![ExcludeAnswer::Exists(false)] + rest
        },
        None => rest,
    }
}

/// The exclude file such a run settles on: the explicit file if it exists,
/// else the written patterns file, else the default file if it exists.
pub open spec fn run_choice(
    job: Job,
    exists: bool,
    written: Option<String>,
    default: Option<String>,
) -> Option<Seq<char>> {
    match job.exclude_file {
        Some(p) if exists => Some(p@),
        _ => match (pattern_lines(job), written) {
            (Some(_), Some(w)) => Some(w@),
            _ => match default {
                Some(d) => Some(d@),
                None => None,
            },
        },
    }
}

/// Whether an answer is of the kind the step asked for.
pub open spec fn answers_step(step: ExcludeNext, a: ExcludeAnswer) -> bool {
    match step {
        ExcludeNext::CheckExists(_) => a is Exists,
        ExcludeNext::WriteJobExcludes(_) => a is Written,
        ExcludeNext::FindDefault => a is Default,
        ExcludeNext::Done(_) => false,
    }
}

/// A whole run of exclude-file resolution: each step before the last asks
/// the question that the next answer answers, and once every answer is in,
/// the choice is the explicit file if it exists, else the job's written
/// patterns file, else the default file if it exists, else none.
pub proof fn lemma_exclude_run(job: Job, exists: bool, written: Option<String>, default: Option<String>)
    ensures
        forall|k: int|
            0 <= k < run_answers(job, exists, written, default).len() ==> answers_step(
                #[trigger] exclude_step(job, run_answers(job, exists, written, default).take(k)),
                run_answers(job, exists, written, default)[k],
            ),
        exclude_step(job, run_answers(job, exists, written, default)) == ExcludeNext::Done(
            run_choice(job, exists, written, default),
        ),
{
    let full = run_answers(job, exists, written, default);
    assert forall|k: int| 0 <= k < full.len() implies answers_step(
        #[trigger] exclude_step(job, full.take(k)),
        full[k],
    ) by {
        let pre = full.take(k);
        assert forall|j: int| 0 <= j < k implies pre[j] == full[j] by {}
    }
}

fn default_step(answers: &Vec<ExcludeAnswer>, k: usize) -> (r: ExcludeStep)
    ensures
        step_view(r) == default_stage(answers@, k as int),
{
    if answers.len() <= k {
        ExcludeStep::FindDefault
    } else {
        match &answers[k] {
            ExcludeAnswer::Default(Some(p)) => ExcludeStep::Done(Some(p.clone())),
            _ => ExcludeStep::Done(None),
        }
    }
}

fn patterns_step(job: &Job, answers: &Vec<ExcludeAnswer>, k: usize) -> (r: ExcludeStep)
    requires
        k <= answers@.len(),
    ensures
        step_view(r) == patterns_stage(*job, answers@, k as int),
{
    let has_patterns = match &job.exclude_patterns {
        Some(p) => p.len() > 0,
        None => false,
    };
    if has_patterns {
        if answers.len() <= k {
            let content = match &job.exclude_patterns {
                Some(p) => job_excludes_content(p),
                None => String::new(),
            };
            ExcludeStep::WriteJobExcludes(content)
        } else {
            match &answers[k] {
                ExcludeAnswer::Written(Some(path)) => ExcludeStep::Done(Some(path.clone())),
                _ => default_step(answers, k + 1),
            }
        }
    } else {
        default_step(answers, k)
    }
}

/// Decides which exclude file a backup of `job` uses, one question at a
/// time: given the answers to the steps asked so far, in order, returns
/// the next step or the final choice. The explicit exclude file comes
/// first if it exists, then the job's own patterns if they could be
/// written, then the default exclude file if it exists.
pub fn resolve_exclude_file(job: &Job, answers: &Vec<ExcludeAnswer>) -> (r: ExcludeStep)
    ensures
        step_view(r) == exclude_step(*job, answers@),
{
    match &job.exclude_file {
        Some(path) => {
            if answers.len() == 0 {
                ExcludeStep::CheckExists(path.clone())
            } else {
                let exists = match &answers[0] {
                    ExcludeAnswer::Exists(b) => *b,
                    _ => false,
                };
                if exists {
                    ExcludeStep::Done(Some(path.clone()))
                } else {
                    patterns_step(job, answers, 1)
                }
            }
        },
        None => patterns_step(job, answers, 0),
    }
}

} // verus!
