//! Cron schedules and the scheduler's dispatch decisions.

use vstd::prelude::*;
use crate::backup::BackupResult;
use crate::config::{Config, ResolvedConfig, fails_with_other, first_some, lemma_first_some_at, lemma_first_some_none, normalize_cron, normalized_cron};
use crate::errors::AppError;
use crate::names::{NameMap, NameSet};
use crate::restic::views;
use crate::text::{concat2, copy_string, decimal, decimal_string};

verus! {

/// What `cron` answers to a schedule expression: `None` where it accepts
/// the expression, else the text of its parse error.
pub uninterp spec fn cron_parse_error(expr: Seq<char>) -> Option<Seq<char>>;

/// Whether the `cron` crate accepts `expr` as a schedule expression.
pub open spec fn cron_accepts(expr: Seq<char>) -> bool {
    cron_parse_error(expr) is None
}

/// The text of `cron`'s error for a rejected expression.
pub open spec fn cron_rejection_text(expr: Seq<char>) -> Seq<char> {
    match cron_parse_error(expr) {
        Some(m) => m,
        None => Seq::empty(),
    }
}

/// Checks a schedule expression with the `cron` crate.
///
/// Trusted: `<cron::Schedule as FromStr>::from_str`. Whether it accepts an
/// expression, and the text of its error where it does not, depend on the
/// expression alone; the crate's parser writes that text, which is named
/// here and not restated.
#[verifier::external_body]
pub(crate) fn cron_check(expr: &str) -> (r: Result<(), String>)
    ensures
        match r {
            Ok(()) => cron_parse_error(expr@) is None,
            Err(m) => cron_parse_error(expr@) == Some(m@),
        },
{
    match <cron::Schedule as std::str::FromStr>::from_str(expr) {
        Ok(_) => Ok(()),
        Err(e) => Err(e.to_string()),
    }
}


/// A local date and time to the second, with the zone's offset from UTC in
/// seconds: the instant at which the scheduler looks at its schedules.
#[derive(Debug, Clone, Copy, PartialEq, Eq, Structural)]
pub struct WallClock {
    pub year: i32,
    pub month: u32,
    pub day: u32,
    pub hour: u32,
    pub minute: u32,
    pub second: u32,
    pub offset_secs: i32,
}

/// Gregorian leap years.
pub open spec fn is_leap_year(y: int) -> bool {
    (y % 4 == 0 && y % 100 != 0) || y % 400 == 0
}

/// Number of days in month `m` of year `y`.
pub open spec fn days_in_month(y: int, m: int) -> int {
    if m == 2 {
        if is_leap_year(y) {
            29
        } else {
            28
        }
    } else if m == 4 || m == 6 || m == 9 || m == 11 {
        30
    } else {
        31
    }
}

impl WallClock {
    /// A real calendar date (proleptic Gregorian, in the years that
    /// `chrono` represents) and time of day, with an offset of less than a
    /// day.
    pub open spec fn valid(self) -> bool {
        &&& -262143 <= self.year <= 262142
        &&& 1 <= self.month <= 12
        &&& 1 <= self.day <= days_in_month(self.year as int, self.month as int)
        &&& self.hour < 24
        &&& self.minute < 60
        &&& self.second < 60
        &&& -86400 < self.offset_secs < 86400
    }

    /// Checks `valid`.
    pub fn is_valid(&self) -> (r: bool)
        ensures
            r == self.valid(),
    {
        let leap = (self.year % 4 == 0 && self.year % 100 != 0) || self.year % 400 == 0;
        let days: u32 = if self.month == 2 {
            if leap {
                29
            } else {
                28
            }
        } else if self.month == 4 || self.month == 6 || self.month == 9 || self.month == 11 {
            30
        } else {
            31
        };
        -262143 <= self.year && self.year <= 262142 && 1 <= self.month && self.month <= 12 && 1 <= self.day
            && self.day <= days && self.hour < 24 && self.minute < 60 && self.second < 60
            && -86400 < self.offset_secs && self.offset_secs < 86400
    }
}

/// Whether the schedule `expr` includes the given local date and time, as
/// `cron` decides it from the fields (and the weekday of the date).
pub uninterp spec fn cron_includes(
    expr: Seq<char>,
    year: int,
    month: int,
    day: int,
    hour: int,
    minute: int,
    second: int,
) -> bool;

/// `cron_includes` at a wall-clock instant; the offset plays no part.
pub open spec fn includes_at(expr: Seq<char>, t: WallClock) -> bool {
    cron_includes(
        expr,
        t.year as int,
        t.month as int,
        t.day as int,
        t.hour as int,
        t.minute as int,
        t.second as int,
    )
}

/// Asks `cron` whether an accepted expression includes a date and time.
///
/// Trusted: `cron::Schedule::from_str` and `Schedule::includes`, on a
/// `chrono` date-time with the same fields. `includes` reads the year,
/// month, weekday, day, hour, minute and second in the date-time's own
/// zone, so the answer depends on the expression and those fields alone
/// (named `cron_includes`). The expression is accepted and the fields form
/// a date that `chrono` represents, so neither step fails.
#[verifier::external_body]
fn schedule_includes(expr: &str, at: &WallClock) -> (r: bool)
    requires
        cron_accepts(expr@),
        at.valid(),
    ensures
        r == cron_includes(
            expr@,
            at.year as int,
            at.month as int,
            at.day as int,
            at.hour as int,
            at.minute as int,
            at.second as int,
        ),
{
    let schedule = <cron::Schedule as std::str::FromStr>::from_str(expr).unwrap();
    let date = chrono::NaiveDate::from_ymd_opt(at.year, at.month, at.day).unwrap();
    schedule.includes(date.and_hms_opt(at.hour, at.minute, at.second).unwrap().and_utc())
}

/// The next time after now that an accepted expression fires, in the local
/// zone, as RFC 3339 text.
///
/// Trusted: `Schedule::upcoming(chrono::Local)` and `DateTime::to_rfc3339`.
/// The answer depends on the clock and the machine's time zone, so
/// nothing is stated of it.
#[verifier::external_body]
fn next_run_text(expr: &str) -> Option<String>
    requires
        cron_accepts(expr@),
{
    let schedule = <cron::Schedule as std::str::FromStr>::from_str(expr).unwrap();
    schedule.upcoming(chrono::Local).next().map(|t| t.to_rfc3339())
}

/// A schedule that `cron` accepts, kept as its six-field expression.
#[derive(Debug)]
pub struct CronSchedule {
    expr: String,
}

impl View for CronSchedule {
    type V = Seq<char>;

    closed spec fn view(&self) -> Seq<char> {
        self.expr@
    }
}

impl CronSchedule {
    #[verifier::type_invariant]
    closed spec fn inv(self) -> bool {
        cron_accepts(self.expr@)
    }

    /// The six-field expression, which `cron` accepts.
    pub fn expression(&self) -> (r: &str)
        ensures
            r@ == self@,
            cron_accepts(self@),
    {
        proof {
            use_type_invariant(self);
        }
        self.expr.as_str()
    }

    /// Whether the schedule includes the given instant.
    pub fn includes(&self, at: &WallClock) -> (r: bool)
        requires
            at.valid(),
        ensures
            r == includes_at(self@, *at),
    {
        schedule_includes(self.expression(), at)
    }

    /// The next time the schedule fires, as RFC 3339 text in the local
    /// zone, or empty text when there is none.
    pub fn next_run(&self) -> String {
        Self::next_run_or_empty(next_run_text(self.expression()))
    }

    /// The text shown for a schedule's next run, given `cron`'s answer: the
    /// time's text, or empty text when the schedule never fires again.
    pub fn next_run_or_empty(next: Option<String>) -> (r: String)
        ensures
            r@ == match next {
                Some(t) => t@,
                None => Seq::<char>::empty(),
            },
    {
        match next {
            Some(t) => t,
            None => String::new(),
        }
    }
}

impl Clone for CronSchedule {
    fn clone(&self) -> (r: Self)
        ensures
            r@ == self@,
    {
        proof {
            use_type_invariant(self);
        }
        CronSchedule { expr: self.expr.clone() }
    }
}

/// The outcome of parsing a schedule: the normalized expression where
/// `cron` accepts it, else the scheduler's error text.
pub open spec fn parsed_cron(s: Seq<char>) -> Result<Seq<char>, Seq<char>> {
    if cron_accepts(normalized_cron(s)) {
        Ok(normalized_cron(s))
    } else {
        Err("Invalid cron expression: "@ + cron_rejection_text(normalized_cron(s)))
    }
}

/// Whether a trigger check fires: the schedule includes the minute and the
/// job was not already triggered at that same instant.
pub open spec fn fires(includes: bool, last: Map<Seq<char>, WallClock>, job: Seq<char>, now: WallClock) -> bool {
    includes && !(last.contains_key(job) && last[job] == now)
}

/// The record of last triggers after a check: updated to `now` when the
/// check fires, else unchanged.
pub open spec fn after_check(
    includes: bool,
    last: Map<Seq<char>, WallClock>,
    job: Seq<char>,
    now: WallClock,
) -> Map<Seq<char>, WallClock> {
    if fires(includes, last, job, now) {
        last.insert(job, now)
    } else {
        last
    }
}

/// Schedule parsing and trigger bookkeeping.
pub struct Scheduler {
    config: ResolvedConfig,
    jobs: NameMap<CronSchedule>,
}

impl Scheduler {
    /// Normalizes a schedule expression to six fields and parses it.
    pub fn parse_cron(s: &str) -> (r: Result<CronSchedule, AppError>)
        ensures
            match r {
                Ok(c) => parsed_cron(s@) == Ok::<Seq<char>, Seq<char>>(c@),
                Err(AppError::Other(m)) => parsed_cron(s@) == Err::<Seq<char>, Seq<char>>(m@),
                Err(_) => false,
            },
    {
        let normalized = normalize_cron(s);
        match cron_check(normalized.as_str()) {
            Ok(()) => Ok(CronSchedule { expr: normalized }),
            Err(e) => Err(AppError::Other(concat2("Invalid cron expression: ", e.as_str()))),
        }
    }

    /// Records a due check: given whether the schedule includes `now`,
    /// fires unless `job_name` was already triggered at `now`, and then
    /// remembers `now` for it.
    pub fn record_trigger(
        includes: bool,
        now: &WallClock,
        last_triggered: &mut NameMap<WallClock>,
        job_name: &str,
    ) -> (r: bool)
        ensures
            r == fires(includes, old(last_triggered)@, job_name@, *now),
            final(last_triggered)@ == after_check(includes, old(last_triggered)@, job_name@, *now),
    {
        if !includes {
            return false;
        }
        match last_triggered.get(job_name) {
            Some(t) => {
                if *t == *now {
                    return false;
                }
            },
            None => {},
        }
        last_triggered.insert(String::from_str(job_name), *now);
        true
    }

    /// Checks whether `schedule` is due at `now` and, if so, records
    /// `job_name` as triggered at `now`, so that several ticks within one
    /// minute dispatch the job once.
    pub fn mark_if_due(
        schedule: &CronSchedule,
        now: &WallClock,
        last_triggered: &mut NameMap<WallClock>,
        job_name: &str,
    ) -> (r: bool)
        requires
            now.valid(),
        ensures
            r == fires(includes_at(schedule@, *now), old(last_triggered)@, job_name@, *now),
            final(last_triggered)@ == after_check(
                includes_at(schedule@, *now),
                old(last_triggered)@,
                job_name@,
                *now,
            ),
    {
        let includes = schedule.includes(now);
        Self::record_trigger(includes, now, last_triggered, job_name)
    }

    /// Marks `job_name` as running unless it already is; false when it was
    /// already running and the trigger is to be skipped.
    pub fn try_start(in_flight: &mut NameSet, job_name: &str) -> (r: bool)
        ensures
            r == !old(in_flight)@.contains(job_name@),
            final(in_flight)@ == old(in_flight)@.insert(job_name@),
    {
        if in_flight.contains(job_name) {
            proof {
                assert(old(in_flight)@.insert(job_name@) =~= old(in_flight)@);
            }
            false
        } else {
            in_flight.insert(String::from_str(job_name));
            true
        }
    }

    /// Marks `job_name` as no longer running.
    pub fn release(in_flight: &mut NameSet, job_name: &str)
        ensures
            final(in_flight)@ == old(in_flight)@.remove(job_name@),
    {
        in_flight.remove(job_name);
    }
}

/// The job `n` exists and has a schedule.
pub open spec fn has_schedule(c: Config, n: Seq<char>) -> bool {
    c.jobs@.contains_key(n) && c.jobs@[n].schedule is Some
}

/// For each job in order, the error its schedule gives, if any.
pub open spec fn schedule_problems(c: Config) -> Seq<Option<Seq<char>>> {
    Seq::new(
        c.jobs.names().len(),
        |i: int|
            match c.jobs.value_at(i).schedule {
                Some(s) => match parsed_cron(s@) {
                    Ok(_) => None,
                    Err(m) => Some(m),
                },
                None => None,
            },
    )
}

/// The triggers queued by the checks of the first `k` jobs in `names` at
/// `now`, and the record of last triggers after them.
pub open spec fn tick_state(
    names: Seq<Seq<char>>,
    exprs: Map<Seq<char>, Seq<char>>,
    last: Map<Seq<char>, WallClock>,
    now: WallClock,
    k: nat,
) -> (Seq<Seq<char>>, Map<Seq<char>, WallClock>)
    decreases k,
{
    if k == 0 {
        (Seq::empty(), last)
    } else {
        let (queued, m) = tick_state(names, exprs, last, now, (k - 1) as nat);
        let n = names[k - 1];
        let inc = includes_at(exprs[n], now);
        (if fires(inc, m, n, now) {
            queued.push(n)
        } else {
            queued
        }, after_check(inc, m, n, now))
    }
}

/// One tick at `now` over all the scheduled jobs, in order.
pub open spec fn tick(
    names: Seq<Seq<char>>,
    exprs: Map<Seq<char>, Seq<char>>,
    last: Map<Seq<char>, WallClock>,
    now: WallClock,
) -> (Seq<Seq<char>>, Map<Seq<char>, WallClock>) {
    tick_state(names, exprs, last, now, names.len())
}

impl Scheduler {
    /// The configuration the scheduler runs backups with.
    pub closed spec fn resolved(self) -> ResolvedConfig {
        self.config
    }

    /// The names of the scheduled jobs, in configuration order.
    pub closed spec fn scheduled_names(self) -> Seq<Seq<char>> {
        self.jobs.names()
    }

    /// The six-field expression of each scheduled job.
    pub closed spec fn schedules(self) -> Map<Seq<char>, Seq<char>> {
        self.jobs@.map_values(|c: CronSchedule| c@)
    }

    /// Parses the schedule of every job that has one. Fails with the first
    /// job, in configuration order, whose schedule `cron` rejects.
    pub fn new(config: ResolvedConfig) -> (r: Result<Self, AppError>)
        ensures
            fails_with_other(r, first_some(schedule_problems(config.config))),
            r matches Ok(s) ==> {
                &&& s.resolved() == config
                &&& s.scheduled_names() == config.config.jobs.names().filter(
                    |n: Seq<char>| has_schedule(config.config, n),
                )
                &&& s.scheduled_names().no_duplicates()
                &&& forall|n: Seq<char>| #[trigger]
                    s.schedules().contains_key(n) <==> has_schedule(config.config, n)
                &&& forall|n: Seq<char>|
                    has_schedule(config.config, n) ==> parsed_cron(
                        config.config.jobs@[n].schedule.unwrap()@,
                    ) == Ok::<Seq<char>, Seq<char>>(#[trigger] s.schedules()[n])
            },
    {
        let ghost c = config.config;
        let ghost names = c.jobs.names();
        let ghost problems = schedule_problems(c);
        let ghost pred = |n: Seq<char>| has_schedule(c, n);
        let n = config.config.jobs.len();
        let mut jobs: NameMap<CronSchedule> = NameMap::new();
        let mut i: usize = 0;
        proof {
            assert(names.take(0).filter(pred) =~= Seq::<Seq<char>>::empty()) by {
                reveal(Seq::filter);
            }
        }
        while i < n
            invariant
                c == config.config,
                names == c.jobs.names(),
                problems == schedule_problems(c),
                pred == (|n: Seq<char>| has_schedule(c, n)),
                n == names.len(),
                names.no_duplicates(),
                forall|k: Seq<char>| #[trigger] c.jobs@.contains_key(k) <==> names.contains(k),
                forall|j: int| 0 <= j < names.len() ==> #[trigger] c.jobs@[names[j]] == c.jobs.value_at(j),
                i <= n,
                forall|j: int| 0 <= j < i ==> problems[j] is None,
                jobs.names() == names.take(i as int).filter(pred),
                forall|k: Seq<char>| #[trigger]
                    jobs@.contains_key(k) <==> ((exists|j: int| 0 <= j < i && #[trigger] names[j] == k)
                        && has_schedule(c, k)),
                forall|k: Seq<char>|
                    jobs@.contains_key(k) ==> parsed_cron(c.jobs@[k].schedule.unwrap()@) == Ok::<
                        Seq<char>,
                        Seq<char>,
                    >((#[trigger] jobs@[k])@),
            decreases n - i,
        {
            let name = config.config.jobs.name_at(i);
            let job = config.config.jobs.value_at_index(i);
            let ghost k = names[i as int];
            proof {
                assert(names.take(i as int + 1).drop_last() =~= names.take(i as int));
                assert(names.take(i as int + 1).last() == k);
                reveal(Seq::filter);
                assert(names.contains(k));
            }
            match &job.schedule {
                Some(sched) => {
                    match Self::parse_cron(sched.as_str()) {
                        Ok(cs) => {
                            jobs.insert(copy_string(name), cs);
                        },
                        Err(e) => {
                            proof {
                                lemma_first_some_at(problems, i as int);
                            }
                            return Err(e);
                        },
                    }
                },
                None => {},
            }
            i = i + 1;
        }
        proof {
            lemma_first_some_none(problems);
            assert(names.take(n as int) =~= names);
        }
        // `len` states the collection's invariant: no name is stored twice.
        let _count = jobs.len();
        let s = Scheduler { config, jobs };
        proof {
            assert forall|k: Seq<char>| #[trigger]
                s.schedules().contains_key(k) <==> has_schedule(c, k) by {
                if has_schedule(c, k) {
                    assert(names.contains(k));
                }
            }
        }
        Ok(s)
    }

    /// The configuration the scheduler runs backups with.
    pub fn config(&self) -> (r: &ResolvedConfig)
        ensures
            *r == self.resolved(),
    {
        &self.config
    }

    /// Number of scheduled jobs.
    pub fn scheduled_count(&self) -> (n: usize)
        ensures
            n == self.scheduled_names().len(),
            self.scheduled_names().no_duplicates(),
    {
        self.jobs.len()
    }

    /// One tick of the scheduler at `now` (truncated to the minute by the
    /// caller): checks every scheduled job in order and returns those to
    /// dispatch, recording each as triggered at `now`.
    pub fn due_jobs(&self, now: &WallClock, last_triggered: &mut NameMap<WallClock>) -> (r: Vec<
        String,
    >)
        requires
            now.valid(),
        ensures
            views(r@) == tick(self.scheduled_names(), self.schedules(), old(last_triggered)@, *now).0,
            final(last_triggered)@ == tick(
                self.scheduled_names(),
                self.schedules(),
                old(last_triggered)@,
                *now,
            ).1,
    {
        let ghost names = self.scheduled_names();
        let ghost exprs = self.schedules();
        let n = self.jobs.len();
        let mut queued: Vec<String> = Vec::new();
        let mut i: usize = 0;
        proof {
            assert(views(queued@) =~= Seq::<Seq<char>>::empty());
        }
        while i < n
            invariant
                names == self.scheduled_names(),
                exprs == self.schedules(),
                n == names.len(),
                now.valid(),
                i <= n,
                forall|k: Seq<char>| #[trigger] self.jobs@.contains_key(k) <==> names.contains(k),
                views(queued@) == tick_state(names, exprs, old(last_triggered)@, *now, i as nat).0,
                last_triggered@ == tick_state(names, exprs, old(last_triggered)@, *now, i as nat).1,
            decreases n - i,
        {
            let name = self.jobs.name_at(i);
            let sched = self.jobs.value_at_index(i);
            proof {
                assert(names.contains(names[i as int]));
                assert(exprs[names[i as int]] == sched@);
            }
            let ghost before = queued@;
            if Self::mark_if_due(sched, now, last_triggered, name.as_str()) {
                queued.push(copy_string(name));
                proof {
                    assert(views(queued@) =~= views(before).push(name@));
                }
            }
            i = i + 1;
        }
        queued
    }

    /// Each scheduled job with the next time it fires (RFC 3339 text in
    /// the local zone; empty when there is none).
    pub fn list_scheduled_jobs(&self) -> (r: Vec<(&str, String)>)
        ensures
            r@.len() == self.scheduled_names().len(),
            forall|i: int| 0 <= i < r@.len() ==> (#[trigger] r@[i]).0@ == self.scheduled_names()[i],
            self.scheduled_names().no_duplicates(),
    {
        let n = self.jobs.len();
        let mut out: Vec<(&str, String)> = Vec::new();
        let mut i: usize = 0;
        while i < n
            invariant
                n == self.scheduled_names().len(),
                i <= n,
                out@.len() == i,
                forall|j: int| 0 <= j < i ==> (#[trigger] out@[j]).0@ == self.scheduled_names()[j],
            decreases n - i,
        {
            let name = self.jobs.name_at(i);
            let sched = self.jobs.value_at_index(i);
            out.push((name.as_str(), sched.next_run()));
            i = i + 1;
        }
        out
    }
}

/// How a dispatched scheduled backup ended.
pub enum JobOutcome {
    /// The run finished, fully or partially.
    Completed(BackupResult),
    /// The run failed; the error's text.
    Failed(String),
    /// The task running the backup panicked; the join error's text.
    Panicked(String),
}

/// The notification a finished scheduled backup calls for.
#[derive(Debug, PartialEq, Eq)]
pub enum JobNotice {
    /// Some files could not be read.
    Partial { snapshot_id: Option<String>, detail: String },
    /// The backup succeeded.
    Success { snapshot_id: Option<String> },
    /// The backup failed, or its task panicked.
    Failure { error: String },
}

/// What a partial backup's notification says went wrong.
pub open spec fn partial_detail(errors_count: u64) -> Seq<char> {
    if errors_count > 0 {
        decimal(errors_count as nat) + " file(s) could not be read"@
    } else {
        "some files could not be read"@
    }
}

/// The snapshot id of an optional string, by its text.
pub open spec fn opt_text(o: Option<String>) -> Option<Seq<char>> {
    match o {
        Some(s) => Some(s@),
        None => None,
    }
}

/// The notice for each outcome.
pub open spec fn notice_for(outcome: JobOutcome, notice: JobNotice) -> bool {
    match outcome {
        JobOutcome::Completed(r) => if r.partial {
            notice matches JobNotice::Partial { snapshot_id, detail } && opt_text(snapshot_id)
                == opt_text(r.snapshot_id) && detail@ == partial_detail(r.errors_count)
        } else {
            notice matches JobNotice::Success { snapshot_id } && opt_text(snapshot_id) == opt_text(
                r.snapshot_id,
            )
        },
        JobOutcome::Failed(e) => notice matches JobNotice::Failure { error } && error@ == e@,
        JobOutcome::Panicked(j) => notice matches JobNotice::Failure { error } && error@
            == "Backup task panicked: "@ + j@,
    }
}

impl Scheduler {
    /// The notification a finished scheduled backup calls for: partial
    /// runs report how many files could not be read, successes their
    /// snapshot, failures and panics their error.
    pub fn job_notice(outcome: JobOutcome) -> (r: JobNotice)
        ensures
            notice_for(outcome, r),
    {
        match outcome {
            JobOutcome::Completed(result) => {
                if result.partial {
                    let detail = if result.errors_count > 0 {
                        let mut d = decimal_string(result.errors_count);
                        d.append(" file(s) could not be read");
                        d
                    } else {
                        String::from_str("some files could not be read")
                    };
                    JobNotice::Partial { snapshot_id: result.snapshot_id, detail }
                } else {
                    JobNotice::Success { snapshot_id: result.snapshot_id }
                }
            },
            JobOutcome::Failed(e) => JobNotice::Failure { error: e },
            JobOutcome::Panicked(j) => JobNotice::Failure {
                error: concat2("Backup task panicked: ", j.as_str()),
            },
        }
    }
}

/// A job is dispatched at most once per minute: right after a check fires,
/// the same check at the same instant does not.
pub proof fn lemma_fires_once_per_instant(
    includes: bool,
    last: Map<Seq<char>, WallClock>,
    job: Seq<char>,
    now: WallClock,
)
    ensures
        !fires(includes, after_check(includes, last, job, now), job, now),
{
}

/// A check at another instant that the schedule includes fires, whatever
/// happened at the previous one.
pub proof fn lemma_fires_at_new_instant(
    included_before: bool,
    includes: bool,
    last: Map<Seq<char>, WallClock>,
    job: Seq<char>,
    before: WallClock,
    now: WallClock,
)
    requires
        includes,
        !(last.contains_key(job) && last[job] == now),
        before != now,
    ensures
        fires(includes, after_check(included_before, last, job, before), job, now),
{
}

/// Jobs are tracked independently: a check of one job does not change
/// whether a check of another fires.
pub proof fn lemma_jobs_independent(
    inc_a: bool,
    inc_b: bool,
    last: Map<Seq<char>, WallClock>,
    a: Seq<char>,
    b: Seq<char>,
    t_a: WallClock,
    t_b: WallClock,
)
    requires
        a != b,
    ensures
        fires(inc_b, after_check(inc_a, last, a, t_a), b, t_b) == fires(inc_b, last, b, t_b),
{
}

/// A schedule that does not include the instant never fires, and leaves
/// the record unchanged.
pub proof fn lemma_not_included_never_fires(
    last: Map<Seq<char>, WallClock>,
    job: Seq<char>,
    now: WallClock,
)
    ensures
        !fires(false, last, job, now),
        after_check(false, last, job, now) == last,
{
}

/// One run of a job at a time: once a job is started, starting it again
/// is refused until it is released, other jobs start independently, and
/// after the release it can start again.
pub proof fn lemma_in_flight_exclusive(running: Set<Seq<char>>, job: Seq<char>, other: Seq<char>)
    requires
        !running.contains(job),
        other != job,
    ensures
        running.insert(job).contains(job),
        !running.insert(job).contains(other) <==> !running.contains(other),
        !running.insert(job).remove(job).contains(job),
        running.insert(job).remove(job) == running,
{
    assert(running.insert(job).remove(job) =~= running);
}

proof fn lemma_tick_settles(
    names: Seq<Seq<char>>,
    exprs: Map<Seq<char>, Seq<char>>,
    last: Map<Seq<char>, WallClock>,
    now: WallClock,
    k: nat,
)
    requires
        names.no_duplicates(),
        k <= names.len(),
    ensures
        forall|j: int|
            0 <= j < k ==> !fires(
                includes_at(exprs[names[j]], now),
                tick_state(names, exprs, last, now, k).1,
                #[trigger] names[j],
                now,
            ),
    decreases k,
{
    if k > 0 {
        lemma_tick_settles(names, exprs, last, now, (k - 1) as nat);
        let m = tick_state(names, exprs, last, now, (k - 1) as nat).1;
        let n = names[k - 1];
        assert forall|j: int| 0 <= j < k - 1 implies !fires(
            includes_at(exprs[names[j]], now),
            tick_state(names, exprs, last, now, k).1,
            #[trigger] names[j],
            now,
        ) by {
            assert(names[j] != n);
            assert(!fires(includes_at(exprs[names[j]], now), m, names[j], now));
        }
    }
}

proof fn lemma_tick_quiet(
    names: Seq<Seq<char>>,
    exprs: Map<Seq<char>, Seq<char>>,
    m: Map<Seq<char>, WallClock>,
    now: WallClock,
    k: nat,
)
    requires
        k <= names.len(),
        forall|j: int|
            0 <= j < k ==> !fires(includes_at(exprs[names[j]], now), m, #[trigger] names[j], now),
    ensures
        tick_state(names, exprs, m, now, k) == (Seq::<Seq<char>>::empty(), m),
    decreases k,
{
    if k > 0 {
        lemma_tick_quiet(names, exprs, m, now, (k - 1) as nat);
        assert(!fires(includes_at(exprs[names[k - 1]], now), m, names[k - 1], now));
    }
}

/// A second tick at the same instant dispatches nothing and leaves the
/// record of last triggers as the first tick left it: however many ticks
/// land in one minute, each job is dispatched at most once in it.
pub proof fn lemma_tick_once_per_instant(
    names: Seq<Seq<char>>,
    exprs: Map<Seq<char>, Seq<char>>,
    last: Map<Seq<char>, WallClock>,
    now: WallClock,
)
    requires
        names.no_duplicates(),
    ensures
        tick(names, exprs, tick(names, exprs, last, now).1, now) == (
            Seq::<Seq<char>>::empty(),
            tick(names, exprs, last, now).1,
        ),
{
    let m = tick(names, exprs, last, now).1;
    lemma_tick_settles(names, exprs, last, now, names.len());
    lemma_tick_quiet(names, exprs, m, now, names.len());
}


/// What the daemon loop reacts to: a tick at an instant (truncated to the
/// minute), or the end of a job's run.
pub enum DaemonEvent {
    Tick(WallClock),
    Finished(Seq<char>),
}

/// What the daemon loop keeps between events: the record of last triggers
/// and the jobs whose run is in flight.
pub struct DaemonState {
    pub last: Map<Seq<char>, WallClock>,
    pub running: Set<Seq<char>>,
}

/// A run of a job being started or ending, as the loop records it.
pub enum RunMark {
    Started(Seq<char>),
    Ended(Seq<char>),
}

/// Starting the queued jobs in order: a job already in flight is skipped
/// (`Scheduler::try_start` refuses it), any other is started and marked as
/// in flight.
pub open spec fn start_all(queued: Seq<Seq<char>>, running: Set<Seq<char>>) -> (Seq<RunMark>, Set<Seq<char>>)
    decreases queued.len(),
{
    if queued.len() == 0 {
        (seq![], running)
    } else {
        let (m, r) = start_all(queued.drop_last(), running);
        let j = queued.last();
        if r.contains(j) {
            (m, r)
        } else {
            (m.push(RunMark::Started(j)), r.insert(j))
        }
    }
}

/// One event of the daemon loop: a tick queues the due jobs
/// (`Scheduler::due_jobs`) and starts those not in flight; the end of a
/// run in flight releases its job (`Scheduler::release`).
pub open spec fn daemon_step(
    names: Seq<Seq<char>>,
    exprs: Map<Seq<char>, Seq<char>>,
    st: DaemonState,
    ev: DaemonEvent,
) -> (DaemonState, Seq<RunMark>) {
    match ev {
        DaemonEvent::Tick(now) => {
            let (queued, last) = tick(names, exprs, st.last, now);
            let (marks, running) = start_all(queued, st.running);
            (DaemonState { last, running }, marks)
        },
        DaemonEvent::Finished(j) => if st.running.contains(j) {
            (DaemonState { last: st.last, running: st.running.remove(j) }, seq![RunMark::Ended(j)])
        } else {
            (st, seq![])
        },
    }
}

/// The daemon loop over a sequence of events: the state it ends in and
/// the runs started and ended, in order.
pub open spec fn daemon_trace(
    names: Seq<Seq<char>>,
    exprs: Map<Seq<char>, Seq<char>>,
    st: DaemonState,
    events: Seq<DaemonEvent>,
) -> (DaemonState, Seq<RunMark>)
    decreases events.len(),
{
    if events.len() == 0 {
        (st, seq![])
    } else {
        let (s, m) = daemon_trace(names, exprs, st, events.drop_last());
        let (s2, m2) = daemon_step(names, exprs, s, events.last());
        (s2, m + m2)
    }
}

/// How many runs of `j` the marks start.
pub open spec fn started_count(marks: Seq<RunMark>, j: Seq<char>) -> nat
    decreases marks.len(),
{
    if marks.len() == 0 {
        0
    } else {
        started_count(marks.drop_last(), j) + if marks.last() == RunMark::Started(j) {
            1nat
        } else {
            0nat
        }
    }
}

/// How many runs of `j` the marks end.
pub open spec fn ended_count(marks: Seq<RunMark>, j: Seq<char>) -> nat
    decreases marks.len(),
{
    if marks.len() == 0 {
        0
    } else {
        ended_count(marks.drop_last(), j) + if marks.last() == RunMark::Ended(j) {
            1nat
        } else {
            0nat
        }
    }
}

proof fn lemma_counts_concat(a: Seq<RunMark>, b: Seq<RunMark>, j: Seq<char>)
    ensures
        started_count(a + b, j) == started_count(a, j) + started_count(b, j),
        ended_count(a + b, j) == ended_count(a, j) + ended_count(b, j),
    decreases b.len(),
{
    if b.len() == 0 {
        assert(a + b =~= a);
    } else {
        lemma_counts_concat(a, b.drop_last(), j);
        assert((a + b).drop_last() =~= a + b.drop_last());
        assert((a + b).last() == b.last());
    }
}

proof fn lemma_start_all(queued: Seq<Seq<char>>, running: Set<Seq<char>>, j: Seq<char>)
    ensures
        ended_count(start_all(queued, running).0, j) == 0,
        started_count(start_all(queued, running).0, j) == if !running.contains(j) && queued.contains(j) {
            1nat
        } else {
            0nat
        },
        start_all(queued, running).1.contains(j) == (running.contains(j) || queued.contains(j)),
    decreases queued.len(),
{
    if queued.len() > 0 {
        let prev = queued.drop_last();
        lemma_start_all(prev, running, j);
        let last = queued.last();
        assert(queued.contains(j) == (prev.contains(j) || last == j)) by {
            if queued.contains(j) && last != j {
                let q = choose|q: int| 0 <= q < queued.len() && queued[q] == j;
                assert(prev[q] == j);
            }
            if prev.contains(j) {
                let q = choose|q: int| 0 <= q < prev.len() && prev[q] == j;
                assert(queued[q] == j);
            }
            if last == j {
                assert(queued[queued.len() - 1] == j);
            }
        }
        let (m0, r0) = start_all(prev, running);
        if !r0.contains(last) {
            assert(m0.push(RunMark::Started(last)).drop_last() =~= m0);
        }
    }
}

proof fn lemma_daemon_counts(
    names: Seq<Seq<char>>,
    exprs: Map<Seq<char>, Seq<char>>,
    last: Map<Seq<char>, WallClock>,
    events: Seq<DaemonEvent>,
    j: Seq<char>,
)
    ensures
        ({
            let (st, m) = daemon_trace(
                names,
                exprs,
                DaemonState { last, running: Set::empty() },
                events,
            );
            started_count(m, j) == ended_count(m, j) + if st.running.contains(j) {
                1nat
            } else {
                0nat
            }
        }),
    decreases events.len(),
{
    if events.len() > 0 {
        let init = DaemonState { last, running: Set::empty() };
        lemma_daemon_counts(names, exprs, last, events.drop_last(), j);
        let (s, m) = daemon_trace(names, exprs, init, events.drop_last());
        let (s2, m2) = daemon_step(names, exprs, s, events.last());
        lemma_counts_concat(m, m2, j);
        assert(daemon_trace(names, exprs, init, events) == (s2, m + m2));
        match events.last() {
            DaemonEvent::Tick(now) => {
                let (queued, l2) = tick(names, exprs, s.last, now);
                lemma_start_all(queued, s.running, j);
            },
            DaemonEvent::Finished(k) => {
                if s.running.contains(k) {
                    let one = seq![RunMark::Ended(k)];
                    assert(one.drop_last() =~= Seq::<RunMark>::empty());
                    assert(one.last() == RunMark::Ended(k));
                    assert(started_count(Seq::<RunMark>::empty(), j) == 0);
                    assert(ended_count(Seq::<RunMark>::empty(), j) == 0);
                    assert(started_count(one, j) == 0);
                    assert(ended_count(one, j) == if k == j { 1nat } else { 0nat });
                    assert(m2 == one);
                } else {
                    assert(m2 =~= Seq::<RunMark>::empty());
                }
            },
        }
    }
}

/// One run per job at a time: started from no run in flight, at every
/// point of any sequence of ticks and run ends the runs of a job started
/// so far exceed those ended by at most one (exactly one while the job is
/// marked in flight, none otherwise); a tick that finds the job in flight
/// skips it instead of starting a second run.
pub proof fn lemma_one_run_per_job(
    names: Seq<Seq<char>>,
    exprs: Map<Seq<char>, Seq<char>>,
    last: Map<Seq<char>, WallClock>,
    events: Seq<DaemonEvent>,
    j: Seq<char>,
)
    ensures
        forall|n: int|
            0 <= n <= events.len() ==> {
                let (st, m) = #[trigger] daemon_trace(
                    names,
                    exprs,
                    DaemonState { last, running: Set::empty() },
                    events.take(n),
                );
                &&& started_count(m, j) <= ended_count(m, j) + 1
                &&& started_count(m, j) == ended_count(m, j) + if st.running.contains(j) {
                    1nat
                } else {
                    0nat
                }
            },
{
    assert forall|n: int| 0 <= n <= events.len() implies {
        let (st, m) = #[trigger] daemon_trace(
            names,
            exprs,
            DaemonState { last, running: Set::empty() },
            events.take(n),
        );
        &&& started_count(m, j) <= ended_count(m, j) + 1
        &&& started_count(m, j) == ended_count(m, j) + if st.running.contains(j) {
            1nat
        } else {
            0nat
        }
    } by {
        lemma_daemon_counts(names, exprs, last, events.take(n), j);
    }
}

proof fn lemma_finishes_keep_record(
    names: Seq<Seq<char>>,
    exprs: Map<Seq<char>, Seq<char>>,
    st: DaemonState,
    fin: Seq<DaemonEvent>,
)
    requires
        forall|i: int| 0 <= i < fin.len() ==> #[trigger] fin[i] is Finished,
    ensures
        daemon_trace(names, exprs, st, fin).0.last == st.last,
    decreases fin.len(),
{
    if fin.len() > 0 {
        lemma_finishes_keep_record(names, exprs, st, fin.drop_last());
        assert(fin[fin.len() - 1] is Finished);
    }
}

/// One trigger per job per minute: after a tick at `now`, however many
/// runs end in between, another tick at the same `now` starts nothing.
pub proof fn lemma_one_trigger_per_minute(
    names: Seq<Seq<char>>,
    exprs: Map<Seq<char>, Seq<char>>,
    st: DaemonState,
    now: WallClock,
    fin: Seq<DaemonEvent>,
)
    requires
        names.no_duplicates(),
        forall|i: int| 0 <= i < fin.len() ==> #[trigger] fin[i] is Finished,
    ensures
        daemon_step(
            names,
            exprs,
            daemon_trace(names, exprs, daemon_step(names, exprs, st, DaemonEvent::Tick(now)).0, fin).0,
            DaemonEvent::Tick(now),
        ).1 == Seq::<RunMark>::empty(),
{
    let s1 = daemon_step(names, exprs, st, DaemonEvent::Tick(now)).0;
    lemma_finishes_keep_record(names, exprs, s1, fin);
    lemma_tick_once_per_instant(names, exprs, st.last, now);
}

} // verus!
