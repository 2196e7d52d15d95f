//! The configuration model: repositories, backup jobs, their validation,
//! and the resolution of a job to its repository and password.

use vstd::prelude::*;
use crate::errors::{AppError, ConfigError};
use crate::names::NameMap;
use crate::scheduler::{cron_accepts, cron_check, cron_rejection_text};
use crate::secrets::Secrets;
use crate::exclude::config_dir;
use crate::text::{count_words_upto, concat2, copy_string, is_blank, is_ws, join_path, path_join, str_is_blank, word_count};

verus! {

/// A restic repository and the key of its password among the secrets.
#[derive(Debug, Clone)]
pub struct Repository {
    pub repo: String,
    pub password_key: String,
    pub log_cli_output: Option<String>,
}

/// How many snapshots of each kind `restic forget` keeps.
#[derive(Debug, Clone, PartialEq, Eq)]
pub struct RetentionPolicy {
    pub keep_daily: Option<u32>,
    pub keep_weekly: Option<u32>,
    pub keep_monthly: Option<u32>,
    pub keep_yearly: Option<u32>,
    pub keep_hourly: Option<u32>,
    pub keep_last: Option<u32>,
}

/// The `keep_last` of a retention policy that does not give one: 3.
pub fn default_keep_last() -> (r: Option<u32>)
    ensures
        r == Some(3u32),
{
    Some(3)
}

impl Default for RetentionPolicy {
    /// Daily 7, weekly 4, monthly 6, last 3; no yearly or hourly limit.
    fn default() -> (r: Self)
        ensures
            r.keep_daily == Some(7u32),
            r.keep_weekly == Some(4u32),
            r.keep_monthly == Some(6u32),
            r.keep_yearly is None,
            r.keep_hourly is None,
            r.keep_last == Some(3u32),
    {
        RetentionPolicy {
            keep_daily: Some(7),
            keep_weekly: Some(4),
            keep_monthly: Some(6),
            keep_yearly: None,
            keep_hourly: None,
            keep_last: Some(3),
        }
    }
}

/// When a job sends notifications.
#[derive(Debug, Clone, Copy, PartialEq, Eq)]
pub struct NotificationConfig {
    pub on_failure: bool,
    pub on_success: bool,
}

/// The `on_failure` of a notification setting that does not give one.
pub fn default_true() -> (r: bool)
    ensures
        r,
{
    true
}

impl Default for NotificationConfig {
    /// Notify on failure only.
    fn default() -> (r: Self)
        ensures
            r.on_failure,
            !r.on_success,
    {
        NotificationConfig { on_failure: true, on_success: false }
    }
}

/// A step run before or after a backup.
#[derive(Debug, Clone)]
pub enum Hook {
    /// Runs a command. A failing command aborts the backup unless
    /// `continue_on_error` is set, since a silently failed pre-backup step
    /// (a database dump that did not run) can make the backup inconsistent.
    Command { command: String, args: Vec<String>, continue_on_error: bool },
    /// Waits the given number of seconds.
    Wait { seconds: u64 },
}

/// A backup job.
#[derive(Debug, Clone, Default)]
pub struct Job {
    pub repository: String,
    pub paths: Vec<String>,
    pub exclude_file: Option<String>,
    pub exclude_patterns: Option<Vec<String>>,
    pub schedule: Option<String>,
    pub retention: Option<RetentionPolicy>,
    pub notifications: NotificationConfig,
    pub pre_backup: Vec<Hook>,
    pub post_backup: Vec<Hook>,
}

/// All repositories and jobs, by name.
#[derive(Debug, Clone, Default)]
pub struct Config {
    pub repositories: NameMap<Repository>,
    pub jobs: NameMap<Job>,
}

/// The schedule expression in the six-field form that `cron` expects:
/// a five-field expression (minute hour day month weekday) gets a leading
/// `0` seconds field; anything else is left unchanged.
pub open spec fn normalized_cron(s: Seq<char>) -> Seq<char> {
    if word_count(s) == 5 {
        "0 "@ + s
    } else {
        s
    }
}

proof fn lemma_word_count_seconds_prefix(s: Seq<char>)
    ensures
        word_count("0 "@ + s) == word_count(s) + 1,
    decreases s.len(),
{
    reveal_strlit("0 ");
    let p = "0 "@;
    assert(p.len() == 2 && p[0] == '0' && p[1] == ' ');
    if s.len() == 0 {
        assert(p + s =~= p);
        assert(p.take(1) =~= seq!['0']);
        assert(seq!['0'].take(0) =~= Seq::<char>::empty());
        assert(!is_ws('0'));
        assert(word_count(Seq::<char>::empty()) == 0);
        assert(seq!['0'][0] == '0');
        assert(word_count(seq!['0']) == 1);
        assert(is_ws(' '));
        assert(word_count(p) == 1);
    } else {
        let n = s.len() - 1;
        lemma_word_count_seconds_prefix(s.take(n));
        assert((p + s).take(p.len() + n) =~= p + s.take(n));
        assert((p + s)[p.len() + n] == s[n]);
        if n > 0 {
            assert((p + s)[p.len() + n - 1] == s[n - 1]);
        } else {
            assert((p + s)[p.len() + n - 1] == ' ');
            assert(is_ws(' '));
        }
    }
}

/// Normalizing is idempotent: a normalized expression is left unchanged.
pub proof fn lemma_normalize_cron_idempotent(s: Seq<char>)
    ensures
        normalized_cron(normalized_cron(s)) == normalized_cron(s),
{
    if word_count(s) == 5 {
        lemma_word_count_seconds_prefix(s);
    }
}

/// Normalizes a cron expression to the six-field format of `cron`.
pub fn normalize_cron(schedule: &str) -> (r: String)
    ensures
        r@ == normalized_cron(schedule@),
{
    if count_words_upto(schedule, 6) == 5 {
        concat2("0 ", schedule)
    } else {
        String::from_str(schedule)
    }
}

/// The first present entry of a sequence of optional values.
pub open spec fn first_some<T>(s: Seq<Option<T>>) -> Option<T>
    decreases s.len(),
{
    if s.len() == 0 {
        None
    } else if s[0] is Some {
        s[0]
    } else {
        first_some(s.drop_first())
    }
}

/// The first present entry is the one at `i` when all before it are absent.
pub proof fn lemma_first_some_at<T>(s: Seq<Option<T>>, i: int)
    requires
        0 <= i < s.len(),
        forall|j: int| 0 <= j < i ==> s[j] is None,
        s[i] is Some,
    ensures
        first_some(s) == s[i],
    decreases i,
{
    if i > 0 {
        lemma_first_some_at(s.drop_first(), i - 1);
    }
}

/// There is no first present entry when all are absent.
pub proof fn lemma_first_some_none<T>(s: Seq<Option<T>>)
    requires
        forall|j: int| 0 <= j < s.len() ==> s[j] is None,
    ensures
        first_some(s) is None,
    decreases s.len(),
{
    if s.len() > 0 {
        lemma_first_some_none(s.drop_first());
    }
}

/// What is wrong with a repository entry, if anything.
pub open spec fn repo_problem(name: Seq<char>, r: Repository) -> Option<Seq<char>> {
    if is_blank(r.repo@) {
        Some("Repository '"@ + name + "' has an empty repo path"@)
    } else if is_blank(r.password_key@) {
        Some("Repository '"@ + name + "' has an empty password_key"@)
    } else {
        None
    }
}

/// Some backup path of the job is blank.
pub open spec fn has_blank_path(j: Job) -> bool {
    exists|i: int| 0 <= i < j.paths@.len() && is_blank(#[trigger] j.paths@[i]@)
}

/// What is wrong with a job on its own, if anything.
pub open spec fn job_problem(name: Seq<char>, j: Job) -> Option<Seq<char>> {
    if is_blank(j.repository@) {
        Some("Job '"@ + name + "' has an empty repository reference"@)
    } else if j.paths@.len() == 0 {
        Some("Job '"@ + name + "' has no backup paths"@)
    } else if has_blank_path(j) {
        Some("Job '"@ + name + "' contains an empty backup path"@)
    } else {
        match j.schedule {
            Some(s) => if cron_accepts(normalized_cron(s@)) {
                None
            } else {
                Some(
                    "Job '"@ + name + "' has an invalid schedule '"@ + s@ + "': "@
                        + cron_rejection_text(normalized_cron(s@)),
                )
            },
            None => None,
        }
    }
}

/// What is wrong with a job within the configuration, if anything: first
/// whether its repository exists, then the job itself.
pub open spec fn job_ref_problem(c: Config, name: Seq<char>, j: Job) -> Option<Seq<char>> {
    if !c.repositories@.contains_key(j.repository@) {
        Some(
            "Job '"@ + name + "' references non-existent repository '"@ + j.repository@ + "'"@,
        )
    } else {
        job_problem(name, j)
    }
}

/// The problems of each repository, then of each job, in their order.
pub open spec fn config_problems(c: Config) -> Seq<Option<Seq<char>>> {
    Seq::new(
        c.repositories.names().len(),
        |i: int| repo_problem(c.repositories.names()[i], c.repositories.value_at(i)),
    ) + Seq::new(
        c.jobs.names().len(),
        |i: int| job_ref_problem(c, c.jobs.names()[i], c.jobs.value_at(i)),
    )
}

/// The first problem of the configuration, if any.
pub open spec fn config_problem(c: Config) -> Option<Seq<char>> {
    first_some(config_problems(c))
}

/// A validation outcome that reports `problem` as an invalid configuration.
pub open spec fn reports(r: Result<(), ConfigError>, problem: Option<Seq<char>>) -> bool {
    match r {
        Ok(()) => problem is None,
        Err(ConfigError::Invalid(m)) => problem == Some(m@),
        Err(_) => false,
    }
}

fn quoted_message(lead: &str, name: &str, tail: &str) -> (r: String)
    ensures
        r@ == lead@ + name@ + tail@,
{
    let mut r = String::from_str(lead);
    r.append(name);
    r.append(tail);
    r
}

impl Repository {
    /// Checks that the repository path and the password key are not blank.
    pub fn validate(&self, name: &str) -> (r: Result<(), ConfigError>)
        ensures
            reports(r, repo_problem(name@, *self)),
    {
        if str_is_blank(self.repo.as_str()) {
            return Err(
                ConfigError::Invalid(
                    quoted_message("Repository '", name, "' has an empty repo path"),
                ),
            );
        }
        if str_is_blank(self.password_key.as_str()) {
            return Err(
                ConfigError::Invalid(
                    quoted_message("Repository '", name, "' has an empty password_key"),
                ),
            );
        }
        Ok(())
    }
}

impl Job {
    /// Checks the repository reference, the backup paths and the schedule.
    pub fn validate(&self, name: &str) -> (r: Result<(), ConfigError>)
        ensures
            reports(r, job_problem(name@, *self)),
    {
        if str_is_blank(self.repository.as_str()) {
            return Err(
                ConfigError::Invalid(
                    quoted_message("Job '", name, "' has an empty repository reference"),
                ),
            );
        }
        if self.paths.len() == 0 {
            return Err(
                ConfigError::Invalid(quoted_message("Job '", name, "' has no backup paths")),
            );
        }
        let mut i: usize = 0;
        while i < self.paths.len()
            invariant
                i <= self.paths@.len(),
                !is_blank(self.repository@),
                self.paths@.len() > 0,
                forall|j: int| 0 <= j < i ==> !is_blank(#[trigger] self.paths@[j]@),
            decreases self.paths@.len() - i,
        {
            if str_is_blank(self.paths[i].as_str()) {
                assert(is_blank(self.paths@[i as int]@));
                return Err(
                    ConfigError::Invalid(
                        quoted_message("Job '", name, "' contains an empty backup path"),
                    ),
                );
            }
            i = i + 1;
        }
        match &self.schedule {
            Some(schedule) => Self::validate_cron(schedule.as_str(), name),
            None => Ok(()),
        }
    }

    /// Checks a schedule expression, after normalizing it, with `cron`.
    pub fn validate_cron(schedule: &str, job_name: &str) -> (r: Result<(), ConfigError>)
        ensures
            r is Ok <==> cron_accepts(normalized_cron(schedule@)),
            reports(
                r,
                if cron_accepts(normalized_cron(schedule@)) {
                    None
                } else {
                    Some(
                        "Job '"@ + job_name@ + "' has an invalid schedule '"@ + schedule@ + "': "@
                            + cron_rejection_text(normalized_cron(schedule@)),
                    )
                },
            ),
    {
        let normalized = normalize_cron(schedule);
        Self::schedule_verdict(schedule, job_name, cron_check(normalized.as_str()))
    }

    /// The outcome of checking a schedule, given what `cron` answered: the
    /// error names the job, the schedule as written, and `cron`'s message.
    pub fn schedule_verdict(schedule: &str, job_name: &str, check: Result<(), String>) -> (r: Result<
        (),
        ConfigError,
    >)
        ensures
            reports(
                r,
                match check {
                    Ok(()) => None,
                    Err(e) => Some(
                        "Job '"@ + job_name@ + "' has an invalid schedule '"@ + schedule@ + "': "@
                            + e@,
                    ),
                },
            ),
    {
        match check {
            Ok(()) => Ok(()),
            Err(e) => {
                let mut m = quoted_message("Job '", job_name, "' has an invalid schedule '");
                m.append(schedule);
                m.append("': ");
                m.append(e.as_str());
                Err(ConfigError::Invalid(m))
            },
        }
    }
}

impl Config {
    /// The configuration file: `config.yaml` in the application directory.
    pub fn path() -> (r: Result<String, ConfigError>)
        ensures
            r matches Ok(p) ==> exists|dir: Seq<char>| p@ == path_join(dir, "config.yaml"@),
            r matches Err(e) ==> e is IoError,
    {
        match config_dir() {
            Ok(dir) => Ok(join_path(dir.as_str(), "config.yaml")),
            Err(e) => Err(ConfigError::IoError(e)),
        }
    }

    /// Checks every repository, then every job: a job must name an existing
    /// repository and be valid itself. Reports the first problem found.
    pub fn validate(&self) -> (r: Result<(), ConfigError>)
        ensures
            reports(r, config_problem(*self)),
    {
        let ghost problems = config_problems(*self);
        let nrepos = self.repositories.len();
        let mut i: usize = 0;
        while i < nrepos
            invariant
                problems == config_problems(*self),
                nrepos == self.repositories.names().len(),
                i <= nrepos,
                forall|j: int| 0 <= j < i ==> problems[j] is None,
            decreases nrepos - i,
        {
            let name = self.repositories.name_at(i);
            let repo = self.repositories.value_at_index(i);
            match repo.validate(name.as_str()) {
                Ok(()) => {},
                Err(e) => {
                    proof {
                        lemma_first_some_at(problems, i as int);
                    }
                    return Err(e);
                },
            }
            i = i + 1;
        }
        let njobs = self.jobs.len();
        let mut i: usize = 0;
        while i < njobs
            invariant
                problems == config_problems(*self),
                nrepos == self.repositories.names().len(),
                njobs == self.jobs.names().len(),
                i <= njobs,
                forall|j: int| 0 <= j < nrepos + i ==> problems[j] is None,
            decreases njobs - i,
        {
            let name = self.jobs.name_at(i);
            let job = self.jobs.value_at_index(i);
            if !self.repositories.contains_key(job.repository.as_str()) {
                let mut m = quoted_message("Job '", name.as_str(), "' references non-existent repository '");
                m.append(job.repository.as_str());
                m.append("'");
                proof {
                    lemma_first_some_at(problems, nrepos + i);
                }
                return Err(ConfigError::Invalid(m));
            }
            match job.validate(name.as_str()) {
                Ok(()) => {},
                Err(e) => {
                    proof {
                        lemma_first_some_at(problems, nrepos + i);
                    }
                    return Err(e);
                },
            }
            i = i + 1;
        }
        proof {
            lemma_first_some_none(problems);
        }
        Ok(())
    }

    /// The repository named `name`, if any.
    pub fn get_repository(&self, name: &str) -> (r: Option<&Repository>)
        ensures
            match r {
                Some(repo) => self.repositories@.contains_key(name@) && *repo
                    == self.repositories@[name@],
                None => !self.repositories@.contains_key(name@),
            },
    {
        self.repositories.get(name)
    }

    /// The job named `name`, if any.
    pub fn get_job(&self, name: &str) -> (r: Option<&Job>)
        ensures
            match r {
                Some(job) => self.jobs@.contains_key(name@) && *job == self.jobs@[name@],
                None => !self.jobs@.contains_key(name@),
            },
    {
        self.jobs.get(name)
    }

    /// The names of all jobs, each once.
    pub fn list_jobs(&self) -> (r: Vec<&String>)
        ensures
            r@.len() == self.jobs.names().len(),
            forall|j: int| 0 <= j < r@.len() ==> #[trigger] r@[j]@ == self.jobs.names()[j],
    {
        let n = self.jobs.len();
        let mut r: Vec<&String> = Vec::new();
        let mut i: usize = 0;
        while i < n
            invariant
                n == self.jobs.names().len(),
                i <= n,
                r@.len() == i,
                forall|j: int| 0 <= j < i ==> #[trigger] r@[j]@ == self.jobs.names()[j],
            decreases n - i,
        {
            r.push(self.jobs.name_at(i));
            i = i + 1;
        }
        r
    }

    /// The names of all repositories, each once.
    pub fn list_repositories(&self) -> (r: Vec<&String>)
        ensures
            r@.len() == self.repositories.names().len(),
            forall|j: int| 0 <= j < r@.len() ==> #[trigger] r@[j]@ == self.repositories.names()[j],
    {
        let n = self.repositories.len();
        let mut r: Vec<&String> = Vec::new();
        let mut i: usize = 0;
        while i < n
            invariant
                n == self.repositories.names().len(),
                i <= n,
                r@.len() == i,
                forall|j: int| 0 <= j < i ==> #[trigger] r@[j]@ == self.repositories.names()[j],
            decreases n - i,
        {
            r.push(self.repositories.name_at(i));
            i = i + 1;
        }
        r
    }
}


/// A validated configuration together with the secrets it refers to.
#[derive(Debug, Clone)]
pub struct ResolvedConfig {
    pub config: Config,
    pub secrets: Secrets,
}

/// The secret values that loading works with: those given, or none.
pub open spec fn secret_values(secrets: Option<Secrets>) -> Map<Seq<char>, String> {
    match secrets {
        Some(s) => s.values@,
        None => Map::empty(),
    }
}

/// What is wrong with a repository's password reference, if anything.
pub open spec fn secret_problem(
    values: Map<Seq<char>, String>,
    name: Seq<char>,
    r: Repository,
) -> Option<Seq<char>> {
    if !values.contains_key(r.password_key@) {
        Some(
            "Repository '"@ + name + "' references missing secret key '"@ + r.password_key@
                + "'"@,
        )
    } else {
        None
    }
}

/// The password problem of each repository, in order.
pub open spec fn secret_problems(c: Config, values: Map<Seq<char>, String>) -> Seq<
    Option<Seq<char>>,
> {
    Seq::new(
        c.repositories.names().len(),
        |i: int| secret_problem(values, c.repositories.names()[i], c.repositories.value_at(i)),
    )
}

/// The first problem found when loading: of the configuration itself, else
/// of a password reference.
pub open spec fn load_problem(c: Config, values: Map<Seq<char>, String>) -> Option<Seq<char>> {
    match config_problem(c) {
        Some(m) => Some(m),
        None => first_some(secret_problems(c, values)),
    }
}

/// The password of repository `name`, if the repository exists and its
/// password key is among the secrets.
pub open spec fn repo_password(rc: ResolvedConfig, name: Seq<char>) -> Option<Seq<char>> {
    if rc.config.repositories@.contains_key(name) && rc.secrets.values@.contains_key(
        rc.config.repositories@[name].password_key@,
    ) {
        Some(rc.secrets.values@[rc.config.repositories@[name].password_key@]@)
    } else {
        None
    }
}

/// The error text for resolving repository `name`, if it cannot be resolved.
pub open spec fn repo_resolution_problem(rc: ResolvedConfig, name: Seq<char>) -> Option<
    Seq<char>,
> {
    if !rc.config.repositories@.contains_key(name) {
        Some("Repository '"@ + name + "' not found"@)
    } else if repo_password(rc, name) is None {
        Some("No password found for repository '"@ + name + "'"@)
    } else {
        None
    }
}

/// The error text for resolving job `name`, if it cannot be resolved.
pub open spec fn job_resolution_problem(rc: ResolvedConfig, name: Seq<char>) -> Option<
    Seq<char>,
> {
    if !rc.config.jobs@.contains_key(name) {
        Some("Job '"@ + name + "' not found"@)
    } else {
        repo_resolution_problem(rc, rc.config.jobs@[name].repository@)
    }
}

/// An outcome that fails exactly with `AppError::Other(problem)`.
pub open spec fn fails_with_other<T>(r: Result<T, AppError>, problem: Option<Seq<char>>) -> bool {
    match r {
        Ok(_) => problem is None,
        Err(AppError::Other(m)) => problem == Some(m@),
        Err(_) => false,
    }
}

impl ResolvedConfig {
    /// Validates a loaded configuration and the loaded secrets (none when
    /// the secrets file is absent), and checks that every repository's
    /// password key is present.
    pub fn load(config: Config, secrets: Option<Secrets>) -> (r: Result<ResolvedConfig, AppError>)
        ensures
            r is Ok <==> load_problem(config, secret_values(secrets)) is None,
            r matches Ok(rc) ==> rc.config == config && rc.secrets.values@ == secret_values(secrets)
                && match secrets {
                Some(s) => rc.secrets == s,
                None => rc.secrets.telegram is None,
            },
            r matches Err(e) ==> (e matches AppError::Config(ConfigError::Invalid(m)) && load_problem(
                config,
                secret_values(secrets),
            ) == Some(m@)),
    {
        match config.validate() {
            Ok(()) => {},
            Err(e) => {
                return Err(AppError::Config(e));
            },
        }
        let secrets = match secrets {
            Some(s) => s,
            None => Secrets::default(),
        };
        let resolved = ResolvedConfig { config, secrets };
        match resolved.validate_secrets() {
            Ok(()) => Ok(resolved),
            Err(e) => Err(e),
        }
    }

    /// Checks that every repository's password key is among the secrets.
    pub fn validate_secrets(&self) -> (r: Result<(), AppError>)
        ensures
            r is Ok <==> first_some(secret_problems(self.config, self.secrets.values@)) is None,
            r matches Err(e) ==> (e matches AppError::Config(ConfigError::Invalid(m)) && first_some(
                secret_problems(self.config, self.secrets.values@),
            ) == Some(m@)),
    {
        let ghost problems = secret_problems(self.config, self.secrets.values@);
        let n = self.config.repositories.len();
        let mut i: usize = 0;
        while i < n
            invariant
                problems == secret_problems(self.config, self.secrets.values@),
                n == self.config.repositories.names().len(),
                i <= n,
                forall|j: int| 0 <= j < i ==> problems[j] is None,
            decreases n - i,
        {
            let name = self.config.repositories.name_at(i);
            let repo = self.config.repositories.value_at_index(i);
            if self.secrets.get(repo.password_key.as_str()).is_none() {
                let mut m = quoted_message(
                    "Repository '",
                    name.as_str(),
                    "' references missing secret key '",
                );
                m.append(repo.password_key.as_str());
                m.append("'");
                proof {
                    lemma_first_some_at(problems, i as int);
                }
                return Err(AppError::Config(ConfigError::Invalid(m)));
            }
            i = i + 1;
        }
        proof {
            lemma_first_some_none(problems);
        }
        Ok(())
    }

    /// The password of repository `repo_name`, if it exists and its password
    /// key is among the secrets.
    pub fn get_repo_password(&self, repo_name: &str) -> (r: Option<&str>)
        ensures
            match r {
                Some(p) => repo_password(*self, repo_name@) == Some(p@),
                None => repo_password(*self, repo_name@) is None,
            },
    {
        match self.config.get_repository(repo_name) {
            Some(repo) => self.secrets.get(repo.password_key.as_str()),
            None => None,
        }
    }

    /// Resolves a job name to its job, its repository and that repository's
    /// password.
    pub fn resolve_job(&self, job_name: &str) -> (r: Result<(&Job, &Repository, &str), AppError>)
        ensures
            fails_with_other(r, job_resolution_problem(*self, job_name@)),
            r matches Ok((job, repo, password)) ==> {
                &&& self.config.jobs@.contains_key(job_name@)
                &&& *job == self.config.jobs@[job_name@]
                &&& self.config.repositories@.contains_key(job.repository@)
                &&& *repo == self.config.repositories@[job.repository@]
                &&& repo_password(*self, job.repository@) == Some(password@)
            },
    {
        let job = match self.config.get_job(job_name) {
            Some(job) => job,
            None => {
                return Err(AppError::Other(quoted_message("Job '", job_name, "' not found")));
            },
        };
        match self.resolve_repo(job.repository.as_str()) {
            Ok((repo, password)) => Ok((job, repo, password)),
            Err(e) => Err(e),
        }
    }

    /// Resolves a repository name to its repository and password.
    pub fn resolve_repo(&self, repo_name: &str) -> (r: Result<(&Repository, &str), AppError>)
        ensures
            fails_with_other(r, repo_resolution_problem(*self, repo_name@)),
            r matches Ok((repo, password)) ==> {
                &&& self.config.repositories@.contains_key(repo_name@)
                &&& *repo == self.config.repositories@[repo_name@]
                &&& repo_password(*self, repo_name@) == Some(password@)
            },
    {
        let repo = match self.config.get_repository(repo_name) {
            Some(repo) => repo,
            None => {
                return Err(
                    AppError::Other(quoted_message("Repository '", repo_name, "' not found")),
                );
            },
        };
        match self.get_repo_password(repo_name) {
            Some(password) => Ok((repo, password)),
            None => Err(
                AppError::Other(
                    quoted_message("No password found for repository '", repo_name, "'"),
                ),
            ),
        }
    }
}


/// When there is no first present entry, every entry is absent.
pub proof fn lemma_first_some_none_all<T>(s: Seq<Option<T>>, j: int)
    requires
        first_some(s) is None,
        0 <= j < s.len(),
    ensures
        s[j] is None,
    decreases j,
{
    if j > 0 {
        lemma_first_some_none_all(s.drop_first(), j - 1);
    }
}

/// Once loading succeeds, every configured job resolves: its repository
/// exists and that repository's password is among the secrets.
pub proof fn lemma_loaded_jobs_resolve(rc: ResolvedConfig, name: Seq<char>)
    requires
        rc.config.repositories.well_formed(),
        rc.config.jobs.well_formed(),
        load_problem(rc.config, rc.secrets.values@) is None,
        rc.config.jobs@.contains_key(name),
    ensures
        job_resolution_problem(rc, name) is None,
{
    let c = rc.config;
    c.jobs.lemma_names();
    c.repositories.lemma_names();
    let i = choose|i: int| 0 <= i < c.jobs.names().len() && c.jobs.names()[i] == name;
    let problems = config_problems(c);
    lemma_first_some_none_all(problems, c.repositories.names().len() + i);
    let job = c.jobs.value_at(i);
    assert(job == c.jobs@[name]);
    assert(c.repositories@.contains_key(job.repository@));
    let k = choose|k: int|
        0 <= k < c.repositories.names().len() && c.repositories.names()[k] == job.repository@;
    lemma_first_some_none_all(secret_problems(c, rc.secrets.values@), k);
}


/// The job named `name` (meaningful when it exists).
pub open spec fn job_of(rc: ResolvedConfig, name: Seq<char>) -> Job {
    rc.config.jobs@[name]
}

/// The repository of the job named `name` (meaningful when both exist).
pub open spec fn repo_of_job(rc: ResolvedConfig, name: Seq<char>) -> Repository {
    rc.config.repositories@[job_of(rc, name).repository@]
}

/// The password of the job named `name` (meaningful when it resolves).
pub open spec fn password_of_job(rc: ResolvedConfig, name: Seq<char>) -> Seq<char> {
    repo_password(rc, job_of(rc, name).repository@).unwrap()
}


/// A job with a blank backup path (empty or all whitespace) never
/// validates, whatever its name and other settings.
pub proof fn lemma_blank_path_invalid(name: Seq<char>, j: Job, i: int)
    requires
        0 <= i < j.paths@.len(),
        is_blank(j.paths@[i]@),
    ensures
        job_problem(name, j) is Some,
{
}

/// A configuration holding a job with a blank backup path does not
/// validate; a configuration that validates has no blank (and so no empty)
/// backup path in any of its jobs.
pub proof fn lemma_valid_config_paths(c: Config)
    ensures
        config_problem(c) is None ==> forall|k: int, i: int|
            0 <= k < c.jobs.names().len() && 0 <= i < c.jobs.value_at(k).paths@.len() ==> {
                &&& !is_blank(#[trigger] c.jobs.value_at(k).paths@[i]@)
                &&& c.jobs.value_at(k).paths@[i]@.len() > 0
            },
        (exists|k: int, i: int|
            0 <= k < c.jobs.names().len() && 0 <= i < c.jobs.value_at(k).paths@.len() && is_blank(
                #[trigger] c.jobs.value_at(k).paths@[i]@,
            )) ==> config_problem(c) is Some,
{
    let probs = config_problems(c);
    let nr = c.repositories.names().len();
    assert forall|k: int, i: int|
        0 <= k < c.jobs.names().len() && 0 <= i < c.jobs.value_at(k).paths@.len() && is_blank(
            #[trigger] c.jobs.value_at(k).paths@[i]@,
        ) implies config_problem(c) is Some by {
        assert(probs[nr + k] == job_ref_problem(c, c.jobs.names()[k], c.jobs.value_at(k)));
        assert(probs[nr + k] is Some);
        if first_some(probs) is None {
            lemma_first_some_none_all(probs, nr + k);
        }
    }
    if config_problem(c) is None {
        assert forall|k: int, i: int|
            0 <= k < c.jobs.names().len() && 0 <= i < c.jobs.value_at(k).paths@.len() implies {
                &&& !is_blank(#[trigger] c.jobs.value_at(k).paths@[i]@)
                &&& c.jobs.value_at(k).paths@[i]@.len() > 0
            } by {
            if c.jobs.value_at(k).paths@[i]@.len() == 0 {
                assert(is_blank(c.jobs.value_at(k).paths@[i]@));
            }
        }
    }
}


/// What a job must have to validate: a non-blank repository reference,
/// at least one backup path, and no blank backup path; a job with all of
/// these and no schedule is valid. A repository is valid exactly when
/// neither its repo path nor its password key is blank, and a job naming a
/// repository the configuration lacks does not validate.
pub proof fn lemma_validation_rules(c: Config, name: Seq<char>, j: Job, rname: Seq<char>, r: Repository)
    ensures
        is_blank(j.repository@) ==> job_problem(name, j) is Some,
        j.paths@.len() == 0 ==> job_problem(name, j) is Some,
        (!is_blank(j.repository@) && j.paths@.len() > 0 && (forall|i: int|
            0 <= i < j.paths@.len() ==> !is_blank(#[trigger] j.paths@[i]@)) && j.schedule is None)
            ==> job_problem(name, j) is None,
        repo_problem(rname, r) is Some <==> (is_blank(r.repo@) || is_blank(r.password_key@)),
        !c.repositories@.contains_key(j.repository@) ==> job_ref_problem(c, name, j) is Some,
{
}

} // verus!
