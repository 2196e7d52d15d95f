//! The terminal dashboard's state and its decisions: what each key does,
//! what each finished background load or command changes, and the text
//! of each pane. Drawing, the terminal and the background work are the
//! caller's; it hands the results back here.

use vstd::prelude::*;
use crate::config::{Job, Repository};
use crate::report::{job_head_lines, job_tail_lines, masked_key, mask_password_key, push_job_head, push_job_tail, push_retention, retention_lines, two_byte_prefix};
use crate::restic::views;
use crate::json::{parse_json_array, parse_json_strings, parsed_json_array, parsed_json_strings};
use crate::snapshot::{Snapshot, SnapshotManager, describes};
use crate::text::{concat2, concat3, contains_str, copy_string, has_substring, str_eq, trim, trimmed, utf8_len};

verus! {

/// The sidebar's views, in order.
pub const SIDEBAR_LEN: usize = 3;
/// How often the dashboard polls for a key, in milliseconds.
pub const TICK_MS: u64 = 100;
/// The most log lines kept; older ones are dropped first.
pub const MAX_LOG_LINES: usize = 500;
/// How long a status message stays up: 5 seconds, in nanoseconds.
pub const STATUS_MESSAGE_NS: u64 = 5_000_000_000;
/// How often the daemon's presence is checked: 5 seconds, in nanoseconds.
pub const DAEMON_CHECK_NS: u64 = 5_000_000_000;

/// The pane a sidebar position shows.
#[derive(Clone, Copy, Debug, PartialEq, Eq, Structural)]
pub enum Pane {
    Jobs,
    Repositories,
    Logs,
}

/// The pane shown for a sidebar position (positions past the end show the
/// jobs).
pub open spec fn pane_of(selected: usize) -> Pane {
    if selected == 1 {
        Pane::Repositories
    } else if selected == 2 {
        Pane::Logs
    } else {
        Pane::Jobs
    }
}

/// The pane shown for a sidebar position.
pub fn pane(selected: usize) -> (r: Pane)
    ensures
        r == pane_of(selected),
{
    if selected == 1 {
        Pane::Repositories
    } else if selected == 2 {
        Pane::Logs
    } else {
        Pane::Jobs
    }
}

/// Which lists have finished loading.
#[derive(Clone, Copy, Debug, PartialEq, Eq, Structural)]
pub struct DataLoaded {
    pub jobs: bool,
    pub repos: bool,
    pub snapshots: bool,
}

/// The dashboard's state. Times are nanoseconds of a monotonic clock.
#[derive(Debug)]
pub struct App {
    pub sidebar_selected: usize,
    pub jobs: Vec<String>,
    pub repos: Vec<String>,
    pub snapshots: Vec<Snapshot>,
    pub selected_job: Option<String>,
    pub selected_repo: Option<String>,
    pub job_list_index: usize,
    pub repo_list_index: usize,
    pub job_details: Option<Job>,
    pub repo_details: Option<Repository>,
    pub logs: Vec<String>,
    pub status_message: Option<(String, u64)>,
    pub running_label: Option<String>,
    pub data_loaded: DataLoaded,
    pub daemon_running: bool,
    pub last_daemon_check_ns: u64,
    pub show_help: bool,
}

/// A key press, as the dashboard tells keys apart.
#[derive(Clone, Copy, Debug, PartialEq, Eq, Structural)]
pub enum Key {
    Char(char),
    Esc,
    Enter,
    Up,
    Down,
    Other,
}

/// A key press with whether Control was held.
#[derive(Clone, Copy, Debug, PartialEq, Eq, Structural)]
pub struct KeyPress {
    pub key: Key,
    pub ctrl: bool,
}

/// What the caller is to do after an event.
#[derive(Debug)]
pub enum Action {
    Nothing,
    Quit,
    /// Load the details of this job (`show job <name> --format json`).
    LoadJobDetails(String),
    /// Load the details of this repository.
    LoadRepoDetails(String),
    /// Load the snapshots of this job (`list <name> --format json`).
    LoadSnapshots(String),
    /// Run the program with these arguments in the background, streaming
    /// its output into the log.
    RunCommand { label: String, args: Vec<String> },
}

/// A job command started from the dashboard.
#[derive(Clone, Copy, Debug, PartialEq, Eq, Structural)]
pub enum JobCommand {
    Run,
    Prune,
    Check,
}

/// The subcommand of a job command.
pub open spec fn job_command_word(c: JobCommand) -> Seq<char> {
    match c {
        JobCommand::Run => "run"@,
        JobCommand::Prune => "prune"@,
        JobCommand::Check => "check"@,
    }
}

/// What a key does.
#[derive(Clone, Copy, Debug, PartialEq, Eq, Structural)]
pub enum KeyCommand {
    /// Close the help overlay.
    CloseHelp,
    /// Swallowed while the help overlay is open.
    Ignore,
    Quit,
    OpenHelp,
    SidebarDown,
    SidebarUp,
    ListNext,
    ListPrevious,
    Select,
    Start(JobCommand),
    RestoreHint,
    LoadSnapshots,
    ShowLogs,
}

/// The key bindings: with the help overlay open, `?` and Esc close it and
/// other keys are swallowed; otherwise `q`/Esc/Ctrl-C quit, `?` opens the
/// help, Down/`j` and Up/`k` move in the sidebar, `n`/`p` in the list,
/// Enter selects, `r`/`P`/`c` run/prune/check the selected job, `R` shows
/// the restore hint, `l` loads snapshots and `L` shows the logs.
pub open spec fn key_command_of(show_help: bool, k: KeyPress) -> KeyCommand {
    if show_help {
        if k.key == Key::Char('?') || k.key == Key::Esc {
            KeyCommand::CloseHelp
        } else {
            KeyCommand::Ignore
        }
    } else {
        match k.key {
            Key::Esc => KeyCommand::Quit,
            Key::Down => KeyCommand::SidebarDown,
            Key::Up => KeyCommand::SidebarUp,
            Key::Enter => KeyCommand::Select,
            Key::Other => KeyCommand::Ignore,
            Key::Char(c) => if c == 'q' {
                KeyCommand::Quit
            } else if c == 'c' && k.ctrl {
                KeyCommand::Quit
            } else if c == '?' {
                KeyCommand::OpenHelp
            } else if c == 'j' {
                KeyCommand::SidebarDown
            } else if c == 'k' {
                KeyCommand::SidebarUp
            } else if c == 'n' {
                KeyCommand::ListNext
            } else if c == 'p' {
                KeyCommand::ListPrevious
            } else if c == 'r' {
                KeyCommand::Start(JobCommand::Run)
            } else if c == 'R' {
                KeyCommand::RestoreHint
            } else if c == 'l' {
                KeyCommand::LoadSnapshots
            } else if c == 'P' {
                KeyCommand::Start(JobCommand::Prune)
            } else if c == 'c' {
                KeyCommand::Start(JobCommand::Check)
            } else if c == 'L' {
                KeyCommand::ShowLogs
            } else {
                KeyCommand::Ignore
            },
        }
    }
}

/// What a key does, given whether the help overlay is open.
pub fn key_command(show_help: bool, k: KeyPress) -> (r: KeyCommand)
    ensures
        r == key_command_of(show_help, k),
{
    if show_help {
        return if k.key == Key::Char('?') || k.key == Key::Esc {
            KeyCommand::CloseHelp
        } else {
            KeyCommand::Ignore
        };
    }
    match k.key {
        Key::Esc => KeyCommand::Quit,
        Key::Down => KeyCommand::SidebarDown,
        Key::Up => KeyCommand::SidebarUp,
        Key::Enter => KeyCommand::Select,
        Key::Other => KeyCommand::Ignore,
        Key::Char(c) => {
            if c == 'q' {
                KeyCommand::Quit
            } else if c == 'c' && k.ctrl {
                KeyCommand::Quit
            } else if c == '?' {
                KeyCommand::OpenHelp
            } else if c == 'j' {
                KeyCommand::SidebarDown
            } else if c == 'k' {
                KeyCommand::SidebarUp
            } else if c == 'n' {
                KeyCommand::ListNext
            } else if c == 'p' {
                KeyCommand::ListPrevious
            } else if c == 'r' {
                KeyCommand::Start(JobCommand::Run)
            } else if c == 'R' {
                KeyCommand::RestoreHint
            } else if c == 'l' {
                KeyCommand::LoadSnapshots
            } else if c == 'P' {
                KeyCommand::Start(JobCommand::Prune)
            } else if c == 'c' {
                KeyCommand::Start(JobCommand::Check)
            } else if c == 'L' {
                KeyCommand::ShowLogs
            } else {
                KeyCommand::Ignore
            }
        },
    }
}

/// The sidebar position after moving by `delta`, wrapping around.
pub open spec fn moved(cur: usize, delta: int) -> int {
    (cur as int + delta) % (SIDEBAR_LEN as int)
}

/// Moves the sidebar selection by one step down (`down`) or up, wrapping
/// around at either end.
pub fn move_selection(cur: usize, down: bool) -> (r: usize)
    ensures
        r == moved(cur, if down {
            1int
        } else {
            -1int
        }),
        r < SIDEBAR_LEN,
{
    let base = cur % SIDEBAR_LEN;
    if down {
        (base + 1) % SIDEBAR_LEN
    } else {
        (base + SIDEBAR_LEN - 1) % SIDEBAR_LEN
    }
}

/// The log after appending `line`: the oldest line goes first when the log
/// is full.
pub open spec fn log_after(logs: Seq<Seq<char>>, line: Seq<char>) -> Seq<Seq<char>> {
    if logs.len() >= MAX_LOG_LINES {
        logs.drop_first().push(line)
    } else {
        logs.push(line)
    }
}

/// The index after moving forward in a list of `len` items, wrapping.
pub open spec fn next_index(i: usize, len: nat) -> int {
    if len == 0 {
        i as int
    } else {
        (i + 1) % (len as int)
    }
}

/// The index after moving back in a list of `len` items, wrapping.
pub open spec fn previous_index(i: usize, len: nat) -> int {
    if len == 0 {
        i as int
    } else {
        (i + len - 1) % (len as int)
    }
}

impl App {
    /// The dashboard at start: the first view selected, nothing loaded.
    pub fn new(daemon_running: bool, now_ns: u64) -> (r: App)
        ensures
            r.sidebar_selected == 0,
            r.jobs@.len() == 0 && r.repos@.len() == 0 && r.snapshots@.len() == 0,
            r.selected_job is None && r.selected_repo is None,
            r.job_list_index == 0 && r.repo_list_index == 0,
            r.job_details is None && r.repo_details is None,
            r.logs@.len() == 0,
            r.status_message is None && r.running_label is None,
            r.data_loaded == (DataLoaded { jobs: false, repos: false, snapshots: false }),
            r.daemon_running == daemon_running,
            r.last_daemon_check_ns == now_ns,
            !r.show_help,
    {
        App {
            sidebar_selected: 0,
            jobs: Vec::new(),
            repos: Vec::new(),
            snapshots: Vec::new(),
            selected_job: None,
            selected_repo: None,
            job_list_index: 0,
            repo_list_index: 0,
            job_details: None,
            repo_details: None,
            logs: Vec::new(),
            status_message: None,
            running_label: None,
            data_loaded: DataLoaded { jobs: false, repos: false, snapshots: false },
            daemon_running,
            last_daemon_check_ns: now_ns,
            show_help: false,
        }
    }

    /// Appends a line to the log, dropping the oldest line when the log
    /// already holds `MAX_LOG_LINES`.
    pub fn push_log(&mut self, line: String)
        ensures
            views(final(self).logs@) == log_after(views(old(self).logs@), line@),
            *final(self) == (App { logs: final(self).logs, ..*old(self) }),
    {
        let ghost before = views(self.logs@);
        let ghost l = line@;
        if self.logs.len() >= MAX_LOG_LINES {
            let ghost s = self.logs@;
            self.logs.remove(0);
            proof {
                assert(views(self.logs@) =~= views(s).drop_first());
            }
        }
        let ghost mid = self.logs@;
        self.logs.push(line);
        proof {
            assert(views(self.logs@) =~= views(mid).push(l));
            assert(views(self.logs@) =~= log_after(before, l));
        }
    }

    /// Shows a status message from `now_ns` on.
    pub fn set_status(&mut self, msg: String, now_ns: u64)
        ensures
            final(self).status_message matches Some((m, t)) && m@ == msg@ && t == now_ns,
            *final(self) == (App { status_message: final(self).status_message, ..*old(self) }),
    {
        self.status_message = Some((msg, now_ns));
    }

    /// Moves the highlight of the shown list forward, wrapping around.
    pub fn advance_list_index(&mut self)
        ensures
            pane_of(old(self).sidebar_selected) == Pane::Jobs ==> *final(self) == (App {
                job_list_index: next_index(old(self).job_list_index, old(self).jobs@.len()) as usize,
                ..*old(self)
            }),
            pane_of(old(self).sidebar_selected) == Pane::Repositories ==> *final(self) == (App {
                repo_list_index: next_index(old(self).repo_list_index, old(self).repos@.len()) as usize,
                ..*old(self)
            }),
            pane_of(old(self).sidebar_selected) == Pane::Logs ==> *final(self) == *old(self),
    {
        match pane(self.sidebar_selected) {
            Pane::Jobs => {
                if self.jobs.len() > 0 {
                    self.job_list_index = ((self.job_list_index as u128 + 1) % (self.jobs.len() as u128)) as usize;
                }
            },
            Pane::Repositories => {
                if self.repos.len() > 0 {
                    self.repo_list_index = ((self.repo_list_index as u128 + 1) % (self.repos.len() as u128)) as usize;
                }
            },
            Pane::Logs => {},
        }
    }

    /// Moves the highlight of the shown list back, wrapping around.
    pub fn retreat_list_index(&mut self)
        ensures
            pane_of(old(self).sidebar_selected) == Pane::Jobs ==> *final(self) == (App {
                job_list_index: previous_index(old(self).job_list_index, old(self).jobs@.len()) as usize,
                ..*old(self)
            }),
            pane_of(old(self).sidebar_selected) == Pane::Repositories ==> *final(self) == (App {
                repo_list_index: previous_index(old(self).repo_list_index, old(self).repos@.len()) as usize,
                ..*old(self)
            }),
            pane_of(old(self).sidebar_selected) == Pane::Logs ==> *final(self) == *old(self),
    {
        match pane(self.sidebar_selected) {
            Pane::Jobs => {
                if self.jobs.len() > 0 {
                    let len = self.jobs.len() as u128;
                    self.job_list_index = ((self.job_list_index as u128 + len - 1) % len) as usize;
                }
            },
            Pane::Repositories => {
                if self.repos.len() > 0 {
                    let len = self.repos.len() as u128;
                    self.repo_list_index = ((self.repo_list_index as u128 + len - 1) % len) as usize;
                }
            },
            Pane::Logs => {},
        }
    }

    /// True while a background command runs.
    pub fn command_running(&self) -> (r: bool)
        ensures
            r == self.running_label is Some,
    {
        self.running_label.is_some()
    }
}

/// The status message shown is `text`, set at `now`.
pub open spec fn status_is(app: App, text: Seq<char>, now: u64) -> bool {
    app.status_message matches Some((m, t)) && m@ == text && t == now
}

/// `new` differs from `old` at most in its status message, which is `text`
/// set at `now`.
pub open spec fn only_status(old: App, new: App, text: Seq<char>, now: u64) -> bool {
    status_is(new, text, now) && new == (App { status_message: new.status_message, ..old })
}

/// The label of a job command in the log and the status bar.
pub open spec fn command_label(c: JobCommand, job: Seq<char>) -> Seq<char> {
    job_command_word(c) + ": "@ + job
}

/// The hint shown for the restore key.
pub open spec fn restore_hint() -> Seq<char> {
    "Restore: select snapshot and target \u{2014} full overlay in Wave 4 (use CLI: restic-manager restore <job> --target <dir>)"@
}

/// Enter: selects the highlighted job or repository and asks for its
/// details; nothing happens in the logs view or on an empty list.
pub open spec fn select_effect(old: App, new: App, r: Action) -> bool {
    match pane_of(old.sidebar_selected) {
        Pane::Jobs => if old.jobs@.len() > 0 && old.job_list_index < old.jobs@.len() {
            &&& new == (App { selected_job: new.selected_job, job_details: None, ..old })
            &&& new.selected_job matches Some(n) && n@ == old.jobs@[old.job_list_index as int]@
            &&& r matches Action::LoadJobDetails(m) && m@ == old.jobs@[old.job_list_index as int]@
        } else {
            new == old && r is Nothing
        },
        Pane::Repositories => if old.repos@.len() > 0 && old.repo_list_index < old.repos@.len() {
            &&& new == (App { selected_repo: new.selected_repo, repo_details: None, ..old })
            &&& new.selected_repo matches Some(n) && n@ == old.repos@[old.repo_list_index as int]@
            &&& r matches Action::LoadRepoDetails(m) && m@ == old.repos@[old.repo_list_index as int]@
        } else {
            new == old && r is Nothing
        },
        Pane::Logs => new == old && r is Nothing,
    }
}

/// `r`/`P`/`c`: starts the command on the selected job unless another one
/// runs; the command's label is recorded and logged.
pub open spec fn start_effect(old: App, new: App, c: JobCommand, now: u64, r: Action) -> bool {
    match old.selected_job {
        None => only_status(old, new, "Select a job first"@, now) && r is Nothing,
        Some(job) => if old.running_label is Some {
            only_status(old, new, "A command is already running"@, now) && r is Nothing
        } else {
            &&& new == (App { running_label: new.running_label, logs: new.logs, ..old })
            &&& new.running_label matches Some(l) && l@ == command_label(c, job@)
            &&& views(new.logs@) == log_after(
                views(old.logs@),
                "--- starting: "@ + command_label(c, job@) + " ---"@,
            )
            &&& r matches Action::RunCommand { label, args } && label@ == command_label(c, job@)
                && views(args@) == seq![job_command_word(c), job@]
        },
    }
}

/// `l`: clears the snapshots of the selected job and asks for them again.
pub open spec fn snapshots_effect(old: App, new: App, now: u64, r: Action) -> bool {
    match old.selected_job {
        None => only_status(old, new, "Select a job first"@, now) && r is Nothing,
        Some(job) => {
            &&& status_is(new, "Loading snapshots for "@ + job@ + "..."@, now)
            &&& new.data_loaded == (DataLoaded { snapshots: false, ..old.data_loaded })
            &&& new.snapshots@.len() == 0
            &&& new == (App {
                status_message: new.status_message,
                data_loaded: new.data_loaded,
                snapshots: new.snapshots,
                ..old
            })
            &&& r matches Action::LoadSnapshots(j) && j@ == job@
        },
    }
}

/// What a key does to the dashboard, and what the caller is to do.
pub open spec fn key_effect(old: App, new: App, k: KeyPress, now: u64, r: Action) -> bool {
    match key_command_of(old.show_help, k) {
        KeyCommand::CloseHelp => new == (App { show_help: false, ..old }) && r is Nothing,
        KeyCommand::Ignore => new == old && r is Nothing,
        KeyCommand::Quit => new == old && r is Quit,
        KeyCommand::OpenHelp => new == (App { show_help: true, ..old }) && r is Nothing,
        KeyCommand::SidebarDown => new == (App {
            sidebar_selected: moved(old.sidebar_selected, 1) as usize,
            ..old
        }) && r is Nothing,
        KeyCommand::SidebarUp => new == (App {
            sidebar_selected: moved(old.sidebar_selected, -1) as usize,
            ..old
        }) && r is Nothing,
        KeyCommand::ListNext => r is Nothing && match pane_of(old.sidebar_selected) {
            Pane::Jobs => new == (App {
                job_list_index: next_index(old.job_list_index, old.jobs@.len()) as usize,
                ..old
            }),
            Pane::Repositories => new == (App {
                repo_list_index: next_index(old.repo_list_index, old.repos@.len()) as usize,
                ..old
            }),
            Pane::Logs => new == old,
        },
        KeyCommand::ListPrevious => r is Nothing && match pane_of(old.sidebar_selected) {
            Pane::Jobs => new == (App {
                job_list_index: previous_index(old.job_list_index, old.jobs@.len()) as usize,
                ..old
            }),
            Pane::Repositories => new == (App {
                repo_list_index: previous_index(old.repo_list_index, old.repos@.len()) as usize,
                ..old
            }),
            Pane::Logs => new == old,
        },
        KeyCommand::Select => select_effect(old, new, r),
        KeyCommand::Start(c) => start_effect(old, new, c, now, r),
        KeyCommand::RestoreHint => only_status(old, new, restore_hint(), now) && r is Nothing,
        KeyCommand::LoadSnapshots => snapshots_effect(old, new, now, r),
        KeyCommand::ShowLogs => new == (App { sidebar_selected: 2, ..old }) && r is Nothing,
    }
}

impl App {
    /// Enter: selects the highlighted job or repository.
    pub fn select_highlighted(&mut self) -> (r: Action)
        ensures
            select_effect(*old(self), *final(self), r),
    {
        match pane(self.sidebar_selected) {
            Pane::Jobs => {
                if self.jobs.len() > 0 && self.job_list_index < self.jobs.len() {
                    let name = copy_string(&self.jobs[self.job_list_index]);
                    let action = Action::LoadJobDetails(copy_string(&name));
                    self.selected_job = Some(name);
                    self.job_details = None;
                    action
                } else {
                    Action::Nothing
                }
            },
            Pane::Repositories => {
                if self.repos.len() > 0 && self.repo_list_index < self.repos.len() {
                    let name = copy_string(&self.repos[self.repo_list_index]);
                    let action = Action::LoadRepoDetails(copy_string(&name));
                    self.selected_repo = Some(name);
                    self.repo_details = None;
                    action
                } else {
                    Action::Nothing
                }
            },
            Pane::Logs => Action::Nothing,
        }
    }

    /// Starts a job command on the selected job, unless another command
    /// runs or no job is selected.
    pub fn start_job_command(&mut self, c: JobCommand, now_ns: u64) -> (r: Action)
        ensures
            start_effect(*old(self), *final(self), c, now_ns, r),
    {
        let job = match &self.selected_job {
            Some(j) => copy_string(j),
            None => {
                self.set_status(String::from_str("Select a job first"), now_ns);
                return Action::Nothing;
            },
        };
        if self.command_running() {
            self.set_status(String::from_str("A command is already running"), now_ns);
            return Action::Nothing;
        }
        let word = match c {
            JobCommand::Run => "run",
            JobCommand::Prune => "prune",
            JobCommand::Check => "check",
        };
        let label = concat3(word, ": ", job.as_str());
        self.running_label = Some(copy_string(&label));
        self.push_log(concat3("--- starting: ", label.as_str(), " ---"));
        let mut args: Vec<String> = Vec::new();
        args.push(String::from_str(word));
        args.push(job);
        proof {
            assert(views(args@) =~= seq![job_command_word(c), old(self).selected_job.unwrap()@]);
        }
        Action::RunCommand { label, args }
    }

    /// `l`: reloads the snapshots of the selected job.
    pub fn request_snapshots(&mut self, now_ns: u64) -> (r: Action)
        ensures
            snapshots_effect(*old(self), *final(self), now_ns, r),
    {
        let job = match &self.selected_job {
            Some(j) => copy_string(j),
            None => {
                self.set_status(String::from_str("Select a job first"), now_ns);
                return Action::Nothing;
            },
        };
        let mut msg = concat2("Loading snapshots for ", job.as_str());
        msg.append("...");
        self.set_status(msg, now_ns);
        self.data_loaded.snapshots = false;
        self.snapshots = Vec::new();
        Action::LoadSnapshots(job)
    }

    /// Handles a key press at `now_ns`.
    pub fn handle_key(&mut self, k: KeyPress, now_ns: u64) -> (r: Action)
        ensures
            key_effect(*old(self), *final(self), k, now_ns, r),
    {
        match key_command(self.show_help, k) {
            KeyCommand::CloseHelp => {
                self.show_help = false;
                Action::Nothing
            },
            KeyCommand::Ignore => Action::Nothing,
            KeyCommand::Quit => Action::Quit,
            KeyCommand::OpenHelp => {
                self.show_help = true;
                Action::Nothing
            },
            KeyCommand::SidebarDown => {
                self.sidebar_selected = move_selection(self.sidebar_selected, true);
                Action::Nothing
            },
            KeyCommand::SidebarUp => {
                self.sidebar_selected = move_selection(self.sidebar_selected, false);
                Action::Nothing
            },
            KeyCommand::ListNext => {
                self.advance_list_index();
                Action::Nothing
            },
            KeyCommand::ListPrevious => {
                self.retreat_list_index();
                Action::Nothing
            },
            KeyCommand::Select => self.select_highlighted(),
            KeyCommand::Start(c) => self.start_job_command(c, now_ns),
            KeyCommand::RestoreHint => {
                self.set_status(
                    String::from_str(
                        "Restore: select snapshot and target \u{2014} full overlay in Wave 4 (use CLI: restic-manager restore <job> --target <dir>)",
                    ),
                    now_ns,
                );
                Action::Nothing
            },
            KeyCommand::LoadSnapshots => self.request_snapshots(now_ns),
            KeyCommand::ShowLogs => {
                self.sidebar_selected = 2;
                Action::Nothing
            },
        }
    }
}

/// How a background load of a list or of details ended.
#[derive(Debug)]
pub enum LoadOutcome<T> {
    /// The output was read.
    Loaded(T),
    /// The command succeeded but its output could not be parsed.
    ParseError(String),
    /// The command failed; its standard error.
    CommandFailed(String),
    /// The command could not be started.
    SpawnError(String),
}

/// How a background command ended.
#[derive(Debug)]
pub enum CommandExit {
    /// It exited with this code.
    Code(i32),
    /// It ended without an exit code (a signal).
    NoCode,
    /// Waiting for it failed.
    WaitError(String),
}

/// The log line for a failed load: the prefixes for a parse failure, a
/// failed command and a command that could not start.
pub open spec fn load_error_line<T>(o: LoadOutcome<T>, parse: Seq<char>, failed: Seq<char>, spawn: Seq<char>) -> Seq<char> {
    match o {
        LoadOutcome::Loaded(_) => seq![],
        LoadOutcome::ParseError(e) => parse + e@,
        LoadOutcome::CommandFailed(e) => failed + e@,
        LoadOutcome::SpawnError(e) => spawn + e@,
    }
}

fn load_error_text<T>(o: &LoadOutcome<T>, parse: &str, failed: &str, spawn: &str) -> (r: String)
    requires
        !(o is Loaded),
    ensures
        r@ == load_error_line(*o, parse@, failed@, spawn@),
{
    match o {
        LoadOutcome::Loaded(_) => String::new(),
        LoadOutcome::ParseError(e) => concat2(parse, e.as_str()),
        LoadOutcome::CommandFailed(e) => concat2(failed, e.as_str()),
        LoadOutcome::SpawnError(e) => concat2(spawn, e.as_str()),
    }
}

/// The decimal text of a signed exit code.
pub open spec fn code_text(code: i32) -> Seq<char> {
    crate::backup::signed_decimal(code as int)
}

/// The log line that ends a command.
pub open spec fn finish_line(exit: CommandExit) -> Seq<char> {
    match exit {
        CommandExit::Code(c) => "--- command finished: exit code "@ + code_text(c) + " ---"@,
        CommandExit::NoCode => "--- command finished: no exit code ---"@,
        CommandExit::WaitError(e) => "--- command finished: wait error "@ + e@ + " ---"@,
    }
}

/// The status message a finished command leaves, if any: none for a clean
/// exit or one without a code.
pub open spec fn finish_status(label: Seq<char>, exit: CommandExit) -> Option<Seq<char>> {
    match exit {
        CommandExit::Code(c) => if c == 0 {
            None
        } else {
            Some("error: "@ + label + " failed (exit "@ + code_text(c) + ")"@)
        },
        CommandExit::NoCode => None,
        CommandExit::WaitError(_) => Some("error: "@ + label + " failed (wait error)"@),
    }
}

/// The status bar text at `now`: a status message younger than five
/// seconds; else the running command; else the key summary.
pub open spec fn status_text(app: App, now: u64) -> Seq<char> {
    match app.status_message {
        Some((m, at)) if now >= at && now - at < STATUS_MESSAGE_NS => m@,
        Some((m, at)) if now < at => m@,
        _ => match app.running_label {
            Some(l) => "running: "@ + l@ + "  ?:help  q:quit"@,
            None => "?:help n/p list Enter select r:run R:restore l:list P:prune c:check L:logs q:quit"@,
        },
    }
}

/// Reads the output of `jobs --format json` or `repos --format json`:
/// the listed names, or the parser's error.
pub fn list_outcome(stdout: &str) -> (r: LoadOutcome<Vec<String>>)
    ensures
        r == match parsed_json_strings(trimmed(stdout@)) {
            Ok(v) => LoadOutcome::Loaded(v),
            Err(e) => LoadOutcome::ParseError(e),
        },
{
    let text = trim(stdout);
    match parse_json_strings(text.as_str()) {
        Ok(v) => LoadOutcome::Loaded(v),
        Err(e) => LoadOutcome::ParseError(e),
    }
}

/// Reads the output of `list <job> --format json`: one snapshot per array
/// element, or the parser's error.
pub fn snapshots_outcome(stdout: &str) -> (r: LoadOutcome<Vec<Snapshot>>)
    ensures
        match parsed_json_array(trimmed(stdout@)) {
            Ok(values) => r matches LoadOutcome::Loaded(snaps) && snaps@.len() == values@.len()
                && forall|i: int| 0 <= i < values@.len() ==> describes(#[trigger] snaps@[i], values@[i]),
            Err(e) => r == LoadOutcome::<Vec<Snapshot>>::ParseError(e),
        },
{
    let text = trim(stdout);
    match parse_json_array(text.as_str()) {
        Ok(values) => LoadOutcome::Loaded(SnapshotManager::snapshots_from_json(&values).snapshots),
        Err(e) => LoadOutcome::ParseError(e),
    }
}

impl App {
    /// The job list has loaded (or failed to): on success the list is
    /// replaced and the details of the highlighted job are asked for.
    pub fn jobs_loaded(&mut self, outcome: LoadOutcome<Vec<String>>) -> (r: Action)
        ensures
            final(self).data_loaded == (DataLoaded { jobs: true, ..old(self).data_loaded }),
            match outcome {
                LoadOutcome::Loaded(jobs) => {
                    &&& *final(self) == (App { jobs: final(self).jobs, data_loaded: final(self).data_loaded, ..*old(self) })
                    &&& final(self).jobs == jobs
                    &&& if jobs@.len() > 0 && old(self).job_list_index < jobs@.len() {
                        r matches Action::LoadJobDetails(n) && n@ == jobs@[old(self).job_list_index as int]@
                    } else {
                        r is Nothing
                    }
                },
                _ => {
                    &&& *final(self) == (App { logs: final(self).logs, data_loaded: final(self).data_loaded, ..*old(self) })
                    &&& views(final(self).logs@) == log_after(
                        views(old(self).logs@),
                        load_error_line(outcome, "error parsing jobs json: "@, "error loading jobs: "@, "error: "@),
                    )
                    &&& r is Nothing
                },
            },
    {
        self.data_loaded.jobs = true;
        match outcome {
            LoadOutcome::Loaded(jobs) => {
                let action = if jobs.len() > 0 && self.job_list_index < jobs.len() {
                    Action::LoadJobDetails(copy_string(&jobs[self.job_list_index]))
                } else {
                    Action::Nothing
                };
                self.jobs = jobs;
                action
            },
            _ => {
                let line = load_error_text(&outcome, "error parsing jobs json: ", "error loading jobs: ", "error: ");
                self.push_log(line);
                Action::Nothing
            },
        }
    }

    /// The repository list has loaded (or failed to): on success the list
    /// is replaced and the details of the highlighted repository are asked
    /// for.
    pub fn repos_loaded(&mut self, outcome: LoadOutcome<Vec<String>>) -> (r: Action)
        ensures
            final(self).data_loaded == (DataLoaded { repos: true, ..old(self).data_loaded }),
            match outcome {
                LoadOutcome::Loaded(repos) => {
                    &&& *final(self) == (App { repos: final(self).repos, data_loaded: final(self).data_loaded, ..*old(self) })
                    &&& final(self).repos == repos
                    &&& if repos@.len() > 0 && old(self).repo_list_index < repos@.len() {
                        r matches Action::LoadRepoDetails(n) && n@ == repos@[old(self).repo_list_index as int]@
                    } else {
                        r is Nothing
                    }
                },
                _ => {
                    &&& *final(self) == (App { logs: final(self).logs, data_loaded: final(self).data_loaded, ..*old(self) })
                    &&& views(final(self).logs@) == log_after(
                        views(old(self).logs@),
                        load_error_line(outcome, "error parsing repos json: "@, "error loading repos: "@, "error: "@),
                    )
                    &&& r is Nothing
                },
            },
    {
        self.data_loaded.repos = true;
        match outcome {
            LoadOutcome::Loaded(repos) => {
                let action = if repos.len() > 0 && self.repo_list_index < repos.len() {
                    Action::LoadRepoDetails(copy_string(&repos[self.repo_list_index]))
                } else {
                    Action::Nothing
                };
                self.repos = repos;
                action
            },
            _ => {
                let line = load_error_text(&outcome, "error parsing repos json: ", "error loading repos: ", "error: ");
                self.push_log(line);
                Action::Nothing
            },
        }
    }

    /// The details of job `name` have loaded (or failed to): they are kept
    /// only if that job is still the selected one.
    pub fn job_details_loaded(&mut self, name: &str, outcome: LoadOutcome<Job>)
        ensures
            match outcome {
                LoadOutcome::Loaded(job) => if old(self).selected_job matches Some(s) && s@ == name@ {
                    *final(self) == (App { job_details: Some(job), ..*old(self) })
                } else {
                    *final(self) == *old(self)
                },
                _ => {
                    &&& *final(self) == (App { logs: final(self).logs, ..*old(self) })
                    &&& views(final(self).logs@) == log_after(
                        views(old(self).logs@),
                        load_error_line(
                            outcome,
                            "error parsing job details json for "@ + name@ + ": "@,
                            "error loading job details for "@ + name@ + ": "@,
                            "error loading job details for "@ + name@ + ": "@,
                        ),
                    )
                },
            },
    {
        match outcome {
            LoadOutcome::Loaded(job) => {
                let keep = match &self.selected_job {
                    Some(s) => str_eq(s.as_str(), name),
                    None => false,
                };
                if keep {
                    self.job_details = Some(job);
                }
            },
            _ => {
                let parse = concat3("error parsing job details json for ", name, ": ");
                let failed = concat3("error loading job details for ", name, ": ");
                let line = load_error_text(&outcome, parse.as_str(), failed.as_str(), failed.as_str());
                self.push_log(line);
            },
        }
    }

    /// The details of repository `name` have loaded (or failed to): they
    /// are kept only if that repository is still the selected one.
    pub fn repo_details_loaded(&mut self, name: &str, outcome: LoadOutcome<Repository>)
        ensures
            match outcome {
                LoadOutcome::Loaded(repo) => if old(self).selected_repo matches Some(s) && s@ == name@ {
                    *final(self) == (App { repo_details: Some(repo), ..*old(self) })
                } else {
                    *final(self) == *old(self)
                },
                _ => {
                    &&& *final(self) == (App { logs: final(self).logs, ..*old(self) })
                    &&& views(final(self).logs@) == log_after(
                        views(old(self).logs@),
                        load_error_line(
                            outcome,
                            "error parsing repo details json for "@ + name@ + ": "@,
                            "error loading repo details for "@ + name@ + ": "@,
                            "error loading repo details for "@ + name@ + ": "@,
                        ),
                    )
                },
            },
    {
        match outcome {
            LoadOutcome::Loaded(repo) => {
                let keep = match &self.selected_repo {
                    Some(s) => str_eq(s.as_str(), name),
                    None => false,
                };
                if keep {
                    self.repo_details = Some(repo);
                }
            },
            _ => {
                let parse = concat3("error parsing repo details json for ", name, ": ");
                let failed = concat3("error loading repo details for ", name, ": ");
                let line = load_error_text(&outcome, parse.as_str(), failed.as_str(), failed.as_str());
                self.push_log(line);
            },
        }
    }

    /// The snapshots of job `name` have loaded (or failed to).
    pub fn snapshots_loaded(&mut self, name: &str, outcome: LoadOutcome<Vec<Snapshot>>)
        ensures
            final(self).data_loaded == (DataLoaded { snapshots: true, ..old(self).data_loaded }),
            match outcome {
                LoadOutcome::Loaded(snaps) => {
                    &&& *final(self) == (App { snapshots: final(self).snapshots, data_loaded: final(self).data_loaded, ..*old(self) })
                    &&& final(self).snapshots == snaps
                },
                _ => {
                    &&& *final(self) == (App { logs: final(self).logs, data_loaded: final(self).data_loaded, ..*old(self) })
                    &&& views(final(self).logs@) == log_after(
                        views(old(self).logs@),
                        load_error_line(
                            outcome,
                            "error parsing snapshots json: "@,
                            "error loading snapshots for "@ + name@ + ": "@,
                            "error: "@,
                        ),
                    )
                },
            },
    {
        self.data_loaded.snapshots = true;
        match outcome {
            LoadOutcome::Loaded(snaps) => {
                self.snapshots = snaps;
            },
            _ => {
                let failed = concat3("error loading snapshots for ", name, ": ");
                let line = load_error_text(&outcome, "error parsing snapshots json: ", failed.as_str(), "error: ");
                self.push_log(line);
            },
        }
    }

    /// A background command could not be started: the error is logged and
    /// the command no longer counts as running.
    pub fn command_spawn_failed(&mut self, error: &str)
        ensures
            *final(self) == (App { logs: final(self).logs, running_label: None, ..*old(self) }),
            views(final(self).logs@) == log_after(views(old(self).logs@), "error spawning command: "@ + error@),
    {
        self.push_log(concat2("error spawning command: ", error));
        self.running_label = None;
    }

    /// A background command ended at `now_ns`: the end is logged, a failure
    /// shows in the status bar, and the command no longer counts as running.
    pub fn command_finished(&mut self, label: &str, exit: CommandExit, now_ns: u64)
        ensures
            views(final(self).logs@) == log_after(views(old(self).logs@), finish_line(exit)),
            final(self).running_label is None,
            match finish_status(label@, exit) {
                Some(m) => status_is(*final(self), m, now_ns) && *final(self) == (App {
                    logs: final(self).logs,
                    running_label: None,
                    status_message: final(self).status_message,
                    ..*old(self)
                }),
                None => *final(self) == (App { logs: final(self).logs, running_label: None, ..*old(self) }),
            },
    {
        let ghost ex = exit;
        let (line, status) = match exit {
            CommandExit::Code(c) => {
                let code = crate::backup::signed_decimal_string(c);
                let line = concat3("--- command finished: exit code ", code.as_str(), " ---");
                let status = if c == 0 {
                    None
                } else {
                    let mut m = concat3("error: ", label, " failed (exit ");
                    m.append(code.as_str());
                    m.append(")");
                    Some(m)
                };
                (line, status)
            },
            CommandExit::NoCode => (String::from_str("--- command finished: no exit code ---"), None),
            CommandExit::WaitError(e) => (
                concat3("--- command finished: wait error ", e.as_str(), " ---"),
                Some(concat3("error: ", label, " failed (wait error)")),
            ),
        };
        match status {
            Some(m) => self.set_status(m, now_ns),
            None => {},
        }
        self.push_log(line);
        self.running_label = None;
    }

    /// The status bar text at `now_ns`.
    pub fn build_status_text(&self, now_ns: u64) -> (r: String)
        ensures
            r@ == status_text(*self, now_ns),
    {
        match &self.status_message {
            Some((m, at)) => {
                if now_ns < *at || now_ns - *at < STATUS_MESSAGE_NS {
                    return copy_string(m);
                }
            },
            None => {},
        }
        match &self.running_label {
            Some(l) => concat3("running: ", l.as_str(), "  ?:help  q:quit"),
            None => String::from_str(
                "?:help n/p list Enter select r:run R:restore l:list P:prune c:check L:logs q:quit",
            ),
        }
    }

    /// Whether the daemon's presence is due for another check at `now_ns`.
    pub fn daemon_check_due(&self, now_ns: u64) -> (r: bool)
        ensures
            r == (now_ns >= self.last_daemon_check_ns && now_ns - self.last_daemon_check_ns >= DAEMON_CHECK_NS),
    {
        now_ns >= self.last_daemon_check_ns && now_ns - self.last_daemon_check_ns >= DAEMON_CHECK_NS
    }

    /// Records the result of a daemon check made at `now_ns`.
    pub fn record_daemon_check(&mut self, running: bool, now_ns: u64)
        ensures
            *final(self) == (App { daemon_running: running, last_daemon_check_ns: now_ns, ..*old(self) }),
    {
        self.daemon_running = running;
        self.last_daemon_check_ns = now_ns;
    }
}

/// A process directory name: only ASCII digits.
pub open spec fn all_digits(s: Seq<char>) -> bool {
    forall|i: int| 0 <= i < s.len() ==> '0' <= #[trigger] s[i] <= '9'
}

/// Whether a `/proc` entry name is a process id.
pub fn is_pid_name(name: &str) -> (r: bool)
    ensures
        r == all_digits(name@),
{
    let n = name.unicode_len();
    let mut i: usize = 0;
    while i < n
        invariant
            n == name@.len(),
            i <= n,
            forall|j: int| 0 <= j < i ==> '0' <= #[trigger] name@[j] <= '9',
        decreases n - i,
    {
        let c = name.get_char(i);
        if !('0' <= c && c <= '9') {
            return false;
        }
        i = i + 1;
    }
    true
}

/// Whether a process is the scheduler daemon: its command name (trimmed)
/// is `restic-manager` and its command line mentions `daemon`.
pub fn is_daemon_process(comm: &str, cmdline: &str) -> (r: bool)
    ensures
        r == (trimmed(comm@) == "restic-manager"@ && has_substring(cmdline@, "daemon"@)),
{
    let name = trim(comm);
    str_eq(name.as_str(), "restic-manager") && contains_str(cmdline, "daemon")
}

/// One entry of the job or repository list: `> ` on the highlighted
/// entry, `* ` on the selected one.
pub open spec fn item_line(idx: int, highlighted: usize, selected: Option<String>, name: Seq<char>) -> Seq<char> {
    (if idx == highlighted as int {
        "> "@
    } else {
        "  "@
    }) + (if selected matches Some(s) && s@ == name {
        "* "@
    } else {
        "  "@
    }) + name
}

/// The list part of the jobs or repositories pane.
pub open spec fn list_lines(
    loaded: bool,
    names: Seq<Seq<char>>,
    highlighted: usize,
    selected: Option<String>,
    empty_text: Seq<char>,
    title: Seq<char>,
) -> Seq<Seq<char>> {
    if loaded {
        if names.len() == 0 {
            seq![empty_text]
        } else {
            seq![title] + Seq::new(names.len(), |i: int| item_line(i, highlighted, selected, names[i]))
        }
    } else {
        seq!["Loading..."@]
    }
}

/// The details of the selected job in the jobs pane.
pub open spec fn job_pane_details(d: Job) -> Seq<Seq<char>> {
    job_head_lines(d) + match d.schedule {
        Some(s) => seq![
            "  schedule: "@ + s@,
            "  Next run: (computed from schedule \u{2014} not yet implemented)"@,
        ],
        None => seq!["  schedule: (none)"@, "  Next run: (no schedule)"@],
    } + retention_lines(d.retention) + job_tail_lines(d) + seq![
        "  Last run: (not tracked \u{2014} would require run-history feature)"@,
    ]
}

/// A snapshot in the jobs pane: short id and time.
pub open spec fn pane_snapshot_line(s: Snapshot) -> Seq<char> {
    "  "@ + s.short_id@ + "  "@ + s.time@
}

/// The snapshots part of the jobs pane.
pub open spec fn snapshots_section(loaded: bool, snaps: Seq<Snapshot>) -> Seq<Seq<char>> {
    if loaded {
        seq![seq![], "Snapshots:"@] + if snaps.len() == 0 {
            seq!["  (none)"@]
        } else {
            snaps.map_values(|s: Snapshot| pane_snapshot_line(s))
        }
    } else {
        seq!["Loading snapshots..."@]
    }
}

/// The jobs pane.
pub open spec fn job_pane_lines(app: App) -> Seq<Seq<char>> {
    list_lines(
        app.data_loaded.jobs,
        views(app.jobs@),
        app.job_list_index,
        app.selected_job,
        "No jobs configured."@,
        "Jobs:"@,
    ) + seq![seq![]] + match app.selected_job {
        Some(job) => seq!["Selected job: "@ + job@] + match app.job_details {
            Some(d) => job_pane_details(d),
            None => seq!["Loading details..."@],
        } + snapshots_section(app.data_loaded.snapshots, app.snapshots@),
        None => seq!["Select a job from the list (n/p to move, Enter to select)"@],
    }
}

/// The repositories pane, with the selected repository's password key
/// shown as `masked`.
pub open spec fn repo_pane_lines(app: App, masked: Seq<char>) -> Seq<Seq<char>> {
    list_lines(
        app.data_loaded.repos,
        views(app.repos@),
        app.repo_list_index,
        app.selected_repo,
        "No repositories configured."@,
        "Repositories:"@,
    ) + seq![seq![]] + match app.selected_repo {
        Some(repo) => seq!["Selected repository: "@ + repo@] + match app.repo_details {
            Some(d) => seq!["  repo: "@ + d.repo@, "  password_key: "@ + masked] + match d.log_cli_output {
                Some(l) => seq!["  log_cli_output: "@ + l@],
                None => seq![],
            },
            None => seq!["Loading details..."@],
        },
        None => seq!["Select a repository from the list (n/p to move, Enter to select)"@],
    }
}

/// How many of the newest log lines a pane of `height` rows shows: the
/// rows inside its border, at least one.
pub open spec fn visible_log_lines(height: usize) -> int {
    if height <= 3 {
        1
    } else {
        height - 2
    }
}

fn push_line(lines: &mut Vec<String>, line: String)
    ensures
        views(final(lines)@) == views(old(lines)@).push(line@),
{
    let ghost before = lines@;
    let ghost l = line@;
    lines.push(line);
    proof {
        assert(views(lines@) =~= views(before).push(l));
    }
}

fn push_list(
    lines: &mut Vec<String>,
    loaded: bool,
    names: &Vec<String>,
    highlighted: usize,
    selected: &Option<String>,
    empty_text: &str,
    title: &str,
)
    ensures
        views(final(lines)@) == views(old(lines)@) + list_lines(
            loaded,
            views(names@),
            highlighted,
            *selected,
            empty_text@,
            title@,
        ),
{
    let ghost base = views(lines@);
    let ghost nv = views(names@);
    if !loaded {
        push_line(lines, String::from_str("Loading..."));
        return;
    }
    if names.len() == 0 {
        push_line(lines, String::from_str(empty_text));
        return;
    }
    push_line(lines, String::from_str(title));
    let n = names.len();
    let mut i: usize = 0;
    while i < n
        invariant
            n == names@.len(),
            nv == views(names@),
            i <= n,
            views(lines@) == base + seq![title@] + Seq::new(
                i as nat,
                |j: int| item_line(j, highlighted, *selected, nv[j]),
            ),
        decreases n - i,
    {
        let name = names[i].as_str();
        let hl = if i == highlighted {
            "> "
        } else {
            "  "
        };
        let sel = match selected {
            Some(s) => if str_eq(s.as_str(), name) {
                "* "
            } else {
                "  "
            },
            None => "  ",
        };
        push_line(lines, concat3(hl, sel, name));
        proof {
            assert(nv[i as int] == name@);
            assert(Seq::new((i + 1) as nat, |j: int| item_line(j, highlighted, *selected, nv[j]))
                =~= Seq::new(i as nat, |j: int| item_line(j, highlighted, *selected, nv[j])).push(
                item_line(i as int, highlighted, *selected, nv[i as int]),
            ));
        }
        i = i + 1;
    }
}

fn push_job_pane_details(lines: &mut Vec<String>, d: &Job)
    ensures
        views(final(lines)@) == views(old(lines)@) + job_pane_details(*d),
{
    push_job_head(lines, d);
    match &d.schedule {
        Some(s) => {
            push_line(lines, concat2("  schedule: ", s.as_str()));
            push_line(
                lines,
                String::from_str("  Next run: (computed from schedule \u{2014} not yet implemented)"),
            );
        },
        None => {
            push_line(lines, String::from_str("  schedule: (none)"));
            push_line(lines, String::from_str("  Next run: (no schedule)"));
        },
    }
    push_retention(lines, &d.retention);
    push_job_tail(lines, d);
    push_line(
        lines,
        String::from_str("  Last run: (not tracked \u{2014} would require run-history feature)"),
    );
    assert(views(lines@) =~= views(old(lines)@) + job_pane_details(*d));
}

fn push_snapshots_section(lines: &mut Vec<String>, loaded: bool, snaps: &Vec<Snapshot>)
    ensures
        views(final(lines)@) == views(old(lines)@) + snapshots_section(loaded, snaps@),
{
    if !loaded {
        push_line(lines, String::from_str("Loading snapshots..."));
        return;
    }
    push_line(lines, String::new());
    push_line(lines, String::from_str("Snapshots:"));
    if snaps.len() == 0 {
        push_line(lines, String::from_str("  (none)"));
        assert(Seq::<char>::empty() =~= seq![]);
        assert(views(lines@) =~= views(old(lines)@) + snapshots_section(loaded, snaps@));
        return;
    }
    let ghost head = views(lines@);
    let n = snaps.len();
    let mut i: usize = 0;
    while i < n
        invariant
            n == snaps@.len(),
            i <= n,
            views(lines@) == head + snaps@.take(i as int).map_values(|s: Snapshot| pane_snapshot_line(s)),
        decreases n - i,
    {
        let snap = &snaps[i];
        let mut l = concat3("  ", snap.short_id.as_str(), "  ");
        l.append(snap.time.as_str());
        push_line(lines, l);
        proof {
            assert(snaps@.take(i + 1).map_values(|s: Snapshot| pane_snapshot_line(s)) =~= snaps@.take(
                i as int,
            ).map_values(|s: Snapshot| pane_snapshot_line(s)).push(pane_snapshot_line(snaps@[i as int])));
        }
        i = i + 1;
    }
    proof {
        assert(snaps@.take(n as int) =~= snaps@);
        assert(Seq::<char>::empty() =~= seq![]);
        assert(views(lines@) =~= views(old(lines)@) + snapshots_section(loaded, snaps@));
    }
}

impl App {
    /// The text of the jobs pane.
    pub fn render_jobs(&self) -> (r: Vec<String>)
        ensures
            views(r@) == job_pane_lines(*self),
    {
        let mut lines: Vec<String> = Vec::new();
        proof {
            assert(views(lines@) =~= Seq::<Seq<char>>::empty());
        }
        push_list(
            &mut lines,
            self.data_loaded.jobs,
            &self.jobs,
            self.job_list_index,
            &self.selected_job,
            "No jobs configured.",
            "Jobs:",
        );
        push_line(&mut lines, String::new());
        match &self.selected_job {
            Some(job) => {
                push_line(&mut lines, concat2("Selected job: ", job.as_str()));
                match &self.job_details {
                    Some(d) => push_job_pane_details(&mut lines, d),
                    None => push_line(&mut lines, String::from_str("Loading details...")),
                }
                push_snapshots_section(&mut lines, self.data_loaded.snapshots, &self.snapshots);
            },
            None => {
                push_line(
                    &mut lines,
                    String::from_str("Select a job from the list (n/p to move, Enter to select)"),
                );
            },
        }
        proof {
            assert(Seq::<char>::empty() =~= seq![]);
            assert(views(lines@) =~= job_pane_lines(*self));
        }
        lines
    }

    /// The text of the repositories pane, with the selected repository's
    /// password key masked.
    pub fn render_repos(&self) -> (r: Vec<String>)
        requires
            self.repo_details matches Some(d) ==> (utf8_len(d.password_key@) > 2 ==> two_byte_prefix(
                d.password_key@,
            )),
        ensures
            exists|m: Seq<char>|
                (self.repo_details matches Some(d) ==> masked_key(d.password_key@, m)) && views(r@)
                    == repo_pane_lines(*self, m),
    {
        let mut lines: Vec<String> = Vec::new();
        proof {
            assert(views(lines@) =~= Seq::<Seq<char>>::empty());
        }
        push_list(
            &mut lines,
            self.data_loaded.repos,
            &self.repos,
            self.repo_list_index,
            &self.selected_repo,
            "No repositories configured.",
            "Repositories:",
        );
        push_line(&mut lines, String::new());
        let mut masked_text = String::new();
        match &self.selected_repo {
            Some(repo) => {
                push_line(&mut lines, concat2("Selected repository: ", repo.as_str()));
                match &self.repo_details {
                    Some(d) => {
                        push_line(&mut lines, concat2("  repo: ", d.repo.as_str()));
                        masked_text = mask_password_key(d.password_key.as_str());
                        push_line(&mut lines, concat2("  password_key: ", masked_text.as_str()));
                        match &d.log_cli_output {
                            Some(l) => push_line(&mut lines, concat2("  log_cli_output: ", l.as_str())),
                            None => {},
                        }
                    },
                    None => push_line(&mut lines, String::from_str("Loading details...")),
                }
            },
            None => {
                push_line(
                    &mut lines,
                    String::from_str("Select a repository from the list (n/p to move, Enter to select)"),
                );
            },
        }
        proof {
            if self.repo_details is Some && self.selected_repo is None {
                let d = self.repo_details.unwrap();
                if utf8_len(d.password_key@) > 2 {
                    let k = choose|k: int| 0 <= k <= d.password_key@.len() && #[trigger] utf8_len(d.password_key@.take(k)) == 2;
                    let m = d.password_key@.take(k) + "***"@;
                    assert(masked_key(d.password_key@, m));
                    assert(views(lines@) =~= repo_pane_lines(*self, m));
                } else {
                    assert(masked_key(d.password_key@, "***"@));
                    assert(views(lines@) =~= repo_pane_lines(*self, "***"@));
                }
            } else {
                assert(views(lines@) =~= repo_pane_lines(*self, masked_text@));
            }
        }
        lines
    }

    /// The newest log lines that fit a pane of `height` rows.
    pub fn render_logs(&self, height: usize) -> (r: Vec<String>)
        ensures
            views(r@) == views(self.logs@).skip(
                if self.logs@.len() >= visible_log_lines(height) {
                    self.logs@.len() - visible_log_lines(height)
                } else {
                    0
                },
            ),
    {
        let n: usize = if height <= 3 {
            1
        } else {
            height - 2
        };
        let len = self.logs.len();
        let start: usize = if len >= n {
            len - n
        } else {
            0
        };
        let mut out: Vec<String> = Vec::new();
        let mut i: usize = start;
        while i < len
            invariant
                len == self.logs@.len(),
                start <= i <= len,
                views(out@) == views(self.logs@).subrange(start as int, i as int),
            decreases len - i,
        {
            push_line(&mut out, copy_string(&self.logs[i]));
            proof {
                assert(views(self.logs@).subrange(start as int, i + 1) =~= views(self.logs@).subrange(
                    start as int,
                    i as int,
                ).push(self.logs@[i as int]@));
            }
            i = i + 1;
        }
        proof {
            assert(views(self.logs@).subrange(start as int, len as int) =~= views(self.logs@).skip(
                start as int,
            ));
        }
        out
    }
}

/// The log is bounded: appending to a log of at most `MAX_LOG_LINES`
/// lines keeps it within that bound, puts the new line last, and drops
/// nothing but the oldest line.
pub proof fn lemma_log_bounded(logs: Seq<Seq<char>>, line: Seq<char>)
    requires
        logs.len() <= MAX_LOG_LINES,
    ensures
        log_after(logs, line).len() <= MAX_LOG_LINES,
        log_after(logs, line).last() == line,
        log_after(logs, line).drop_last() == if logs.len() == MAX_LOG_LINES {
            logs.drop_first()
        } else {
            logs
        },
{
    assert(log_after(logs, line).drop_last() =~= if logs.len() == MAX_LOG_LINES {
        logs.drop_first()
    } else {
        logs
    });
}

/// Moving down and then up in the sidebar returns to the same view, and
/// every move lands on one of the views.
pub proof fn lemma_sidebar_round_trip(cur: usize)
    requires
        cur < SIDEBAR_LEN,
    ensures
        0 <= moved(cur, 1) < SIDEBAR_LEN,
        0 <= moved(cur, -1) < SIDEBAR_LEN,
        moved(moved(cur, 1) as usize, -1) == cur,
        moved(moved(cur, -1) as usize, 1) == cur,
{
}

/// Moving forward and then back in a list returns to the same entry.
pub proof fn lemma_list_round_trip(i: usize, len: nat)
    requires
        i < len <= usize::MAX,
    ensures
        0 <= next_index(i, len) < len,
        previous_index(next_index(i, len) as usize, len) == i,
        next_index(previous_index(i, len) as usize, len) == i,
{
    let n = len as int;
    if i + 1 < n {
        assert((i + 1) % n == i + 1) by (nonlinear_arith)
            requires
                0 <= i + 1 < n,
        ;
        assert((i + 1 + n - 1) % n == i) by (nonlinear_arith)
            requires
                0 <= i < n,
        ;
    } else {
        assert((i + 1) % n == 0) by (nonlinear_arith)
            requires
                i + 1 == n,
                n > 0,
        ;
        assert((0 + n - 1) % n == i) by (nonlinear_arith)
            requires
                i + 1 == n,
                n > 0,
        ;
    }
    if i == 0 {
        assert((0 + n - 1) % n == n - 1) by (nonlinear_arith)
            requires
                n > 0,
        ;
        assert((n - 1 + 1) % n == 0) by (nonlinear_arith)
            requires
                n > 0,
        ;
    } else {
        assert((i + n - 1) % n == i - 1) by (nonlinear_arith)
            requires
                0 < i < n,
        ;
        assert((i - 1 + 1) % n == i) by (nonlinear_arith)
            requires
                0 < i < n,
        ;
    }
}

/// One command at a time: while a command runs, starting another one
/// changes nothing but the status message and asks the caller to run
/// nothing.
pub proof fn lemma_one_command_at_a_time(old: App, new: App, c: JobCommand, now: u64, r: Action)
    requires
        old.running_label is Some,
        start_effect(old, new, c, now, r),
    ensures
        r is Nothing,
        new.running_label == old.running_label,
        new.logs == old.logs,
{
}


/// With the help overlay closed, a job selected and no command running,
/// `r` starts a backup, `P` a prune and `c` (without Ctrl) a check of the
/// selected job: the action runs the program with that subcommand and the
/// job's name, labelled "<subcommand>: <job>", and the label is recorded
/// as the running command.
pub proof fn lemma_job_command_keys(old: App, new: App, c: char, ctrl: bool, now: u64, r: Action)
    requires
        !old.show_help,
        old.selected_job is Some,
        old.running_label is None,
        c == 'r' || c == 'P' || (c == 'c' && !ctrl),
        key_effect(old, new, KeyPress { key: Key::Char(c), ctrl }, now, r),
    ensures
        ({
            let job = old.selected_job->Some_0@;
            let word = if c == 'r' {
                "run"@
            } else if c == 'P' {
                "prune"@
            } else {
                "check"@
            };
            &&& r matches Action::RunCommand { label, args } && views(args@) == seq![word, job]
                && label@ == word + ": "@ + job
            &&& new.running_label matches Some(l) && l@ == word + ": "@ + job
        }),
{
}


/// The other key bindings, with the help overlay closed: `q`, Esc and
/// Ctrl-C quit without changing anything; `?` opens the help; `l` with a
/// job selected asks for that job's snapshots; `L` shows the logs; and with
/// no job selected, `r`, `P` and `c` start nothing. With the help overlay
/// open, `?` and Esc close it and any other key changes nothing.
pub proof fn lemma_key_bindings(old: App, new: App, k: KeyPress, now: u64, r: Action)
    requires
        key_effect(old, new, k, now, r),
    ensures
        !old.show_help && (k.key == Key::Char('q') || k.key == Key::Esc || (k.key == Key::Char('c')
            && k.ctrl)) ==> r is Quit && new == old,
        !old.show_help && k.key == Key::Char('?') ==> new.show_help && r is Nothing,
        !old.show_help && k.key == Key::Char('l') && old.selected_job is Some ==> (r matches Action::LoadSnapshots(j)
            && j@ == old.selected_job->Some_0@),
        !old.show_help && k.key == Key::Char('L') ==> new.sidebar_selected == 2 && r is Nothing,
        !old.show_help && old.selected_job is None && (k.key == Key::Char('r') || k.key == Key::Char('P')
            || (k.key == Key::Char('c') && !k.ctrl)) ==> r is Nothing && new.running_label
            == old.running_label,
        old.show_help && (k.key == Key::Char('?') || k.key == Key::Esc) ==> !new.show_help && r is Nothing,
        old.show_help && !(k.key == Key::Char('?') || k.key == Key::Esc) ==> new == old && r is Nothing,
{
}

} // verus!
