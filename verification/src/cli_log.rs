//! Entries of the per-repository log of restic's console output.

use vstd::prelude::*;
use crate::restic::{CommandOutput, views};
use crate::text::{join_strings, joined, lines, split_lines, truncate_with_suffix, truncated, utf8_len};

verus! {

/// The most bytes one log entry may take.
pub const MAX_CLI_LOG_ENTRY_LEN: usize = 1_048_576;

/// The marker that ends a truncated log entry.
pub open spec fn truncation_marker() -> Seq<char> {
    "\n... (truncated)\n"@
}

/// Caps a log entry at `MAX_CLI_LOG_ENTRY_LEN` bytes, cutting on a
/// character boundary and marking the cut.
pub fn truncate_cli_log_entry(entry: &str) -> (r: String)
    ensures
        truncated(entry@, 1_048_576, truncation_marker(), r@),
        utf8_len(r@) <= 1_048_576,
{
    let suffix = "\n... (truncated)\n";
    proof {
        reveal_strlit("\n... (truncated)\n");
        vstd::utf8::is_ascii_chars_encode_utf8(suffix@);
    }
    truncate_with_suffix(entry, MAX_CLI_LOG_ENTRY_LEN, suffix)
}

/// One log entry before truncation: a header with the timestamp, the
/// standard output lines, and the standard error when there is any.
pub open spec fn raw_entry(timestamp: Seq<char>, stdout_lines: Seq<Seq<char>>, stderr: Option<Seq<char>>) -> Seq<
    char,
> {
    let head = "=== "@ + timestamp + " ===\n"@ + joined(stdout_lines, "\n"@) + "\n"@;
    match stderr {
        Some(e) => if e.len() > 0 {
            head + "--- stderr ---\n"@ + e + "\n"@
        } else {
            head
        },
        None => head,
    }
}

/// The optional text of an optional string.
pub open spec fn opt_text(o: Option<&str>) -> Option<Seq<char>> {
    match o {
        Some(s) => Some(s@),
        None => None,
    }
}

/// The entry a run adds to the log: a `=== <timestamp> ===` block so that
/// runs do not blur together, capped in size.
pub fn log_entry(timestamp: &str, stdout_lines: &Vec<String>, stderr: Option<&str>) -> (r: String)
    ensures
        truncated(raw_entry(timestamp@, views(stdout_lines@), opt_text(stderr)), 1_048_576, truncation_marker(), r@),
{
    let mut entry = String::from_str("=== ");
    entry.append(timestamp);
    entry.append(" ===\n");
    let body = join_strings(stdout_lines, "\n");
    entry.append(body.as_str());
    entry.append("\n");
    match stderr {
        Some(e) => {
            if e.unicode_len() > 0 {
                entry.append("--- stderr ---\n");
                entry.append(e);
                entry.append("\n");
            }
        },
        None => {},
    }
    proof {
        assert(views(stdout_lines@) =~= stdout_lines@.map_values(|s: String| s@));
    }
    truncate_cli_log_entry(entry.as_str())
}

/// What a finished command leaves for the log: its standard output split
/// into lines, and its standard error when there is any.
pub fn log_parts(output: &CommandOutput) -> (r: (Vec<String>, Option<String>))
    ensures
        views(r.0@) == lines(output.stdout@),
        match r.1 {
            Some(e) => output.stderr@.len() > 0 && e@ == output.stderr@,
            None => output.stderr@.len() == 0,
        },
{
    let out_lines = split_lines(output.stdout.as_str());
    proof {
        assert(views(out_lines@) =~= out_lines@.map_values(|x: String| x@));
    }
    let err = if output.stderr.unicode_len() == 0 {
        None
    } else {
        Some(output.stderr.clone())
    };
    (out_lines, err)
}

} // verus!
