//! The text that commands print and that the dashboard shows: backup and
//! restore reports, listings, and the details of a job or a repository.

use vstd::prelude::*;
use crate::backup::BackupResult;
use crate::config::{Job, Repository, RetentionPolicy};
use crate::json::{pretty_json_strings, to_pretty_json_strings};
use crate::restic::views;
use crate::snapshot::{Snapshot, SnapshotList};
use crate::text::{byte_len, concat2, concat3, decimal, append_decimal, join_strings, joined, utf8_len, utf8_width, lemma_utf8_len_take_next};

verus! {

/// `true` or `false`, as `Display` renders a `bool`.
pub open spec fn bool_text(b: bool) -> Seq<char> {
    if b {
        "true"@
    } else {
        "false"@
    }
}

/// How `Debug` renders a list of strings (quoted and escaped, in
/// brackets, separated by `, `).
pub uninterp spec fn debug_strings(items: Seq<Seq<char>>) -> Seq<char>;

/// Renders a list of strings with `Debug`.
///
/// Trusted: `<Vec<String> as Debug>::fmt` through `format!`. The text
/// depends on the strings alone (named `debug_strings`); its escaping
/// rules are not restated.
#[verifier::external_body]
fn debug_list(items: &Vec<String>) -> (r: String)
    ensures
        r@ == debug_strings(items@.map_values(|s: String| s@)),
{
    format!("{:?}", items)
}

fn push_line(lines: &mut Vec<String>, line: String)
    ensures
        views(final(lines)@) == views(old(lines)@).push(line@),
{
    let ghost before = lines@;
    let ghost l = line@;
    lines.push(line);
    proof {
        assert(views(lines@) =~= views(before).push(l));
    }
}

fn bool_string(b: bool) -> (r: &'static str)
    ensures
        r@ == bool_text(b),
{
    if b {
        "true"
    } else {
        "false"
    }
}

fn append_usize(s: &mut String, n: usize)
    ensures
        final(s)@ == old(s)@ + decimal(n as nat),
{
    append_decimal(s, n as u64);
}

/// What a finished `run` prints.
pub open spec fn run_report_lines(r: BackupResult) -> Seq<Seq<char>> {
    let counts = decimal(r.files_new as nat) + " new, "@ + decimal(r.files_changed as nat)
        + " changed, "@ + decimal(r.files_unmodified as nat) + " unchanged files"@;
    let first = if r.partial {
        "Backup completed with errors (partial): "@ + counts + ". "@ + decimal(
            r.errors_count as nat,
        ) + " file(s) could not be read."@
    } else {
        "Backup completed: "@ + counts
    };
    seq![first] + match r.snapshot_id {
        Some(s) => seq!["Snapshot ID: "@ + s@],
        None => seq![],
    }
}

/// The lines a finished backup run reports.
pub fn run_report(result: &BackupResult) -> (r: Vec<String>)
    ensures
        views(r@) == run_report_lines(*result),
{
    let mut counts = String::new();
    append_decimal(&mut counts, result.files_new as u64);
    counts.append(" new, ");
    append_decimal(&mut counts, result.files_changed as u64);
    counts.append(" changed, ");
    append_decimal(&mut counts, result.files_unmodified as u64);
    counts.append(" unchanged files");
    let first = if result.partial {
        let mut f = concat2("Backup completed with errors (partial): ", counts.as_str());
        f.append(". ");
        append_decimal(&mut f, result.errors_count);
        f.append(" file(s) could not be read.");
        f
    } else {
        concat2("Backup completed: ", counts.as_str())
    };
    let mut lines: Vec<String> = Vec::new();
    proof {
        assert(views(lines@) =~= Seq::<Seq<char>>::empty());
    }
    push_line(&mut lines, first);
    match &result.snapshot_id {
        Some(s) => push_line(&mut lines, concat2("Snapshot ID: ", s.as_str())),
        None => {},
    }
    proof {
        assert(views(lines@) =~= run_report_lines(*result));
    }
    lines
}

/// What a finished restore prints.
pub fn restore_report(snapshot_id: &str, target: &str, latest: bool) -> (r: String)
    ensures
        r@ == if latest {
            "Restored latest snapshot "@ + snapshot_id@ + " to "@ + target@
        } else {
            "Restored snapshot "@ + snapshot_id@ + " to "@ + target@
        },
{
    let mut r = if latest {
        concat2("Restored latest snapshot ", snapshot_id)
    } else {
        concat2("Restored snapshot ", snapshot_id)
    };
    r.append(" to ");
    r.append(target);
    r
}

/// What a finished `prune` prints.
pub fn prune_report(job_name: &str, removed: usize) -> (r: String)
    ensures
        r@ == "Retention applied for job '"@ + job_name@ + "': removed "@ + decimal(removed as nat)
            + " snapshot(s)"@,
{
    let mut r = concat3("Retention applied for job '", job_name, "': removed ");
    append_usize(&mut r, removed);
    r.append(" snapshot(s)");
    r
}

/// One snapshot in a plain-text listing: short id, time, and paths.
pub open spec fn snapshot_line(s: Snapshot) -> Seq<char> {
    "  "@ + s.short_id@ + "  "@ + s.time@ + "  "@ + debug_strings(views(s.paths@))
}

/// The plain-text listing of a job's snapshots.
pub open spec fn snapshot_list_lines(job: Seq<char>, snaps: Seq<Snapshot>) -> Seq<Seq<char>> {
    seq!["Snapshots for job '"@ + job + "':"@] + snaps.map_values(|s: Snapshot| snapshot_line(s))
}

/// The plain-text listing of a job's snapshots.
pub fn snapshot_list_report(job_name: &str, list: &SnapshotList) -> (r: Vec<String>)
    ensures
        views(r@) == snapshot_list_lines(job_name@, list.snapshots@),
{
    let mut lines: Vec<String> = Vec::new();
    proof {
        assert(views(lines@) =~= Seq::<Seq<char>>::empty());
    }
    push_line(&mut lines, concat3("Snapshots for job '", job_name, "':"));
    let n = list.snapshots.len();
    let mut i: usize = 0;
    while i < n
        invariant
            n == list.snapshots@.len(),
            i <= n,
            views(lines@) == seq!["Snapshots for job '"@ + job_name@ + "':"@]
                + list.snapshots@.take(i as int).map_values(|s: Snapshot| snapshot_line(s)),
        decreases n - i,
    {
        let s = &list.snapshots[i];
        let mut line = concat3("  ", s.short_id.as_str(), "  ");
        line.append(s.time.as_str());
        line.append("  ");
        line.append(debug_list(&s.paths).as_str());
        proof {
            assert(s.paths@.map_values(|x: String| x@) =~= views(s.paths@));
        }
        push_line(&mut lines, line);
        proof {
            assert(list.snapshots@.take(i + 1).map_values(|s: Snapshot| snapshot_line(s))
                =~= list.snapshots@.take(i as int).map_values(|s: Snapshot| snapshot_line(s)).push(
                snapshot_line(list.snapshots@[i as int]),
            ));
        }
        i = i + 1;
    }
    proof {
        assert(list.snapshots@.take(n as int) =~= list.snapshots@);
    }
    lines
}

/// A listing of names under a header, one `  - name` line each.
pub open spec fn name_list_lines(header: Seq<char>, names: Seq<Seq<char>>) -> Seq<Seq<char>> {
    seq![header] + names.map_values(|n: Seq<char>| "  - "@ + n)
}

/// A listing of names under a header.
pub fn name_list_report(header: &str, names: &Vec<&String>) -> (r: Vec<String>)
    ensures
        views(r@) == name_list_lines(header@, names@.map_values(|n: &String| n@)),
{
    let ghost nv = names@.map_values(|n: &String| n@);
    let mut lines: Vec<String> = Vec::new();
    proof {
        assert(views(lines@) =~= Seq::<Seq<char>>::empty());
    }
    push_line(&mut lines, String::from_str(header));
    let n = names.len();
    let mut i: usize = 0;
    while i < n
        invariant
            n == names@.len(),
            nv == names@.map_values(|n: &String| n@),
            i <= n,
            views(lines@) == seq![header@] + nv.take(i as int).map_values(|n: Seq<char>| "  - "@ + n),
        decreases n - i,
    {
        push_line(&mut lines, concat2("  - ", names[i].as_str()));
        proof {
            assert(nv.take(i + 1).map_values(|n: Seq<char>| "  - "@ + n) =~= nv.take(
                i as int,
            ).map_values(|n: Seq<char>| "  - "@ + n).push("  - "@ + nv[i as int]));
        }
        i = i + 1;
    }
    proof {
        assert(nv.take(n as int) =~= nv);
    }
    lines
}

/// One `    label: value` line of a retention policy, when the limit is set.
pub open spec fn limit_line(label: Seq<char>, v: Option<u32>) -> Seq<Seq<char>> {
    match v {
        Some(n) => seq!["    "@ + label + ": "@ + decimal(n as nat)],
        None => seq![],
    }
}

/// The retention lines of a job's details.
pub open spec fn retention_lines(r: Option<RetentionPolicy>) -> Seq<Seq<char>> {
    match r {
        Some(p) => seq!["  retention:"@] + limit_line("keep_last"@, p.keep_last) + limit_line(
            "keep_hourly"@,
            p.keep_hourly,
        ) + limit_line("keep_daily"@, p.keep_daily) + limit_line("keep_weekly"@, p.keep_weekly)
            + limit_line("keep_monthly"@, p.keep_monthly) + limit_line(
            "keep_yearly"@,
            p.keep_yearly,
        ),
        None => seq!["  retention: (none)"@],
    }
}

/// The repository and paths lines of a job's details.
pub open spec fn job_head_lines(j: Job) -> Seq<Seq<char>> {
    seq!["  repository: "@ + j.repository@, "  paths: "@ + joined(views(j.paths@), ", "@)]
}

/// The notification and hook lines of a job's details.
pub open spec fn job_tail_lines(j: Job) -> Seq<Seq<char>> {
    seq![
        "  notifications: on_failure="@ + bool_text(j.notifications.on_failure) + " on_success="@
            + bool_text(j.notifications.on_success),
        "  hooks: pre_backup="@ + decimal(j.pre_backup@.len()) + " post_backup="@ + decimal(
            j.post_backup@.len(),
        ),
    ]
}

/// The plain-text details of a job, as `show job` prints them.
pub open spec fn job_show_lines(name: Seq<char>, j: Job) -> Seq<Seq<char>> {
    seq!["Job '"@ + name + "' details:"@] + job_head_lines(j) + seq![
        match j.schedule {
            Some(s) => "  schedule: "@ + s@,
            None => "  schedule: (none)"@,
        },
    ] + retention_lines(j.retention) + job_tail_lines(j)
}

fn push_limit(lines: &mut Vec<String>, label: &str, v: Option<u32>)
    ensures
        views(final(lines)@) == views(old(lines)@) + limit_line(label@, v),
{
    match v {
        Some(n) => {
            let mut l = concat3("    ", label, ": ");
            append_decimal(&mut l, n as u64);
            push_line(lines, l);
        },
        None => {
            assert(views(lines@) =~= views(lines@) + limit_line(label@, v));
        },
    }
}

/// Appends the retention lines of a job's details.
pub fn push_retention(lines: &mut Vec<String>, retention: &Option<RetentionPolicy>)
    ensures
        views(final(lines)@) == views(old(lines)@) + retention_lines(*retention),
{
    match retention {
        Some(p) => {
            push_line(lines, String::from_str("  retention:"));
            push_limit(lines, "keep_last", p.keep_last);
            push_limit(lines, "keep_hourly", p.keep_hourly);
            push_limit(lines, "keep_daily", p.keep_daily);
            push_limit(lines, "keep_weekly", p.keep_weekly);
            push_limit(lines, "keep_monthly", p.keep_monthly);
            push_limit(lines, "keep_yearly", p.keep_yearly);
            assert(views(lines@) =~= views(old(lines)@) + retention_lines(*retention));
        },
        None => {
            push_line(lines, String::from_str("  retention: (none)"));
            assert(views(lines@) =~= views(old(lines)@) + retention_lines(*retention));
        },
    }
}

/// Appends the repository and paths lines of a job's details.
pub fn push_job_head(lines: &mut Vec<String>, job: &Job)
    ensures
        views(final(lines)@) == views(old(lines)@) + job_head_lines(*job),
{
    push_line(lines, concat2("  repository: ", job.repository.as_str()));
    let paths = join_strings(&job.paths, ", ");
    proof {
        assert(job.paths@.map_values(|x: String| x@) =~= views(job.paths@));
    }
    push_line(lines, concat2("  paths: ", paths.as_str()));
    assert(views(lines@) =~= views(old(lines)@) + job_head_lines(*job));
}

/// Appends the notification and hook lines of a job's details.
pub fn push_job_tail(lines: &mut Vec<String>, job: &Job)
    ensures
        views(final(lines)@) == views(old(lines)@) + job_tail_lines(*job),
{
    let mut n = concat2("  notifications: on_failure=", bool_string(job.notifications.on_failure));
    n.append(" on_success=");
    n.append(bool_string(job.notifications.on_success));
    push_line(lines, n);
    let mut h = String::from_str("  hooks: pre_backup=");
    append_usize(&mut h, job.pre_backup.len());
    h.append(" post_backup=");
    append_usize(&mut h, job.post_backup.len());
    push_line(lines, h);
    assert(views(lines@) =~= views(old(lines)@) + job_tail_lines(*job));
}

/// The plain-text details of a job, as `show job` prints them.
pub fn job_show_report(name: &str, job: &Job) -> (r: Vec<String>)
    ensures
        views(r@) == job_show_lines(name@, *job),
{
    let mut lines: Vec<String> = Vec::new();
    proof {
        assert(views(lines@) =~= Seq::<Seq<char>>::empty());
    }
    push_line(&mut lines, concat3("Job '", name, "' details:"));
    push_job_head(&mut lines, job);
    match &job.schedule {
        Some(s) => push_line(&mut lines, concat2("  schedule: ", s.as_str())),
        None => push_line(&mut lines, String::from_str("  schedule: (none)")),
    }
    push_retention(&mut lines, &job.retention);
    push_job_tail(&mut lines, job);
    assert(views(lines@) =~= job_show_lines(name@, *job));
    lines
}

/// The first two bytes of a password key end on a character boundary:
/// some prefix of it takes exactly two bytes.
pub open spec fn two_byte_prefix(key: Seq<char>) -> bool {
    exists|k: int| 0 <= k <= key.len() && #[trigger] utf8_len(key.take(k)) == 2
}

/// A password key as it is shown: its first two bytes and `***` when it
/// is longer than two bytes, else only `***`.
pub open spec fn masked_key(key: Seq<char>, r: Seq<char>) -> bool {
    if utf8_len(key) > 2 {
        exists|k: int| 0 <= k <= key.len() && utf8_len(key.take(k)) == 2 && r == key.take(k) + "***"@
    } else {
        r == "***"@
    }
}

/// Masks a password key for display.
pub fn mask_password_key(key: &str) -> (r: String)
    requires
        utf8_len(key@) > 2 ==> two_byte_prefix(key@),
    ensures
        masked_key(key@, r@),
{
    if byte_len(key) <= 2 {
        return String::from_str("***");
    }
    let ghost kk = choose|k: int| 0 <= k <= key@.len() && #[trigger] utf8_len(key@.take(k)) == 2;
    let mut out = String::new();
    let mut used: usize = 0;
    let ghost mut kept: int = 0;
    let n = key.unicode_len();
    let mut i: usize = 0;
    while used < 2 && i < n
        invariant
            n == key@.len(),
            0 <= kk <= n,
            utf8_len(key@.take(kk)) == 2,
            kept == i,
            i <= n,
            out@ == key@.take(kept),
            used == utf8_len(key@.take(kept)),
            used <= 2,
            kept <= kk,
        decreases n - i,
    {
        let c = key.get_char(i);
        proof {
            lemma_utf8_len_take_next(key@, kept);
            if kept < kk {
                crate::text::lemma_utf8_len_prefix_mono(key@, kept + 1, kk);
            }
        }
        let w = utf8_width(c);
        proof {
            if kept == kk {
                assert(false);
            }
        }
        crate::text::push_char(&mut out, c);
        used = used + w;
        proof {
            assert(key@.take(kept).push(c) =~= key@.take(kept + 1));
            kept = kept + 1;
        }
        i = i + 1;
    }
    proof {
        if used < 2 {
            assert(i == n);
            assert(key@.take(n as int) =~= key@);
        }
    }
    out.append("***");
    out
}

/// The plain-text details of a repository, as `show repo` prints them.
pub open spec fn repo_show_lines(name: Seq<char>, r: Repository, masked: Seq<char>) -> Seq<Seq<char>> {
    seq!["Repository '"@ + name + "' details:"@, "  repo: "@ + r.repo@, "  password_key: "@ + masked]
        + match r.log_cli_output {
        Some(l) => seq!["  log_cli_output: "@ + l@],
        None => seq![],
    }
}

/// The plain-text details of a repository, with its password key masked.
pub fn repo_show_report(name: &str, repo: &Repository) -> (r: Vec<String>)
    requires
        utf8_len(repo.password_key@) > 2 ==> two_byte_prefix(repo.password_key@),
    ensures
        exists|m: Seq<char>| masked_key(repo.password_key@, m) && views(r@) == repo_show_lines(name@, *repo, m),
{
    let mut lines: Vec<String> = Vec::new();
    proof {
        assert(views(lines@) =~= Seq::<Seq<char>>::empty());
    }
    push_line(&mut lines, concat3("Repository '", name, "' details:"));
    push_line(&mut lines, concat2("  repo: ", repo.repo.as_str()));
    let masked = mask_password_key(repo.password_key.as_str());
    push_line(&mut lines, concat2("  password_key: ", masked.as_str()));
    match &repo.log_cli_output {
        Some(l) => push_line(&mut lines, concat2("  log_cli_output: ", l.as_str())),
        None => {},
    }
    assert(views(lines@) =~= repo_show_lines(name@, *repo, masked@));
    lines
}

/// The JSON form of a listing of names: the pretty-printed array, or a
/// `[json error: ...]` note when it cannot be written.
pub open spec fn name_list_json_text(names: Seq<Seq<char>>) -> Seq<char> {
    match pretty_json_strings(names) {
        Ok(t) => t,
        Err(e) => "[json error: "@ + e + "]"@,
    }
}

/// A listing of names as JSON, for `--format json`.
pub fn name_list_json(names: &Vec<&String>) -> (r: String)
    ensures
        r@ == name_list_json_text(names@.map_values(|n: &String| n@)),
{
    let mut owned: Vec<String> = Vec::new();
    let n = names.len();
    let mut i: usize = 0;
    while i < n
        invariant
            n == names@.len(),
            i <= n,
            owned@.len() == i,
            forall|j: int| 0 <= j < i ==> #[trigger] owned@[j]@ == names@[j]@,
        decreases n - i,
    {
        owned.push(String::from_str(names[i].as_str()));
        i = i + 1;
    }
    proof {
        assert(owned@.map_values(|s: String| s@) =~= names@.map_values(|n: &String| n@));
    }
    match to_pretty_json_strings(&owned) {
        Ok(t) => t,
        Err(e) => concat3("[json error: ", e.as_str(), "]"),
    }
}

} // verus!
