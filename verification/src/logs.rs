//! The daemon's output log: its last lines, and its clearing.
//!
//! The log belongs to the daemon, which writes it while it runs. The supervisor
//! reads it whole, shows its end, and may empty it; it never appends to it.

use crate::files::{FileSnapshot, FileText};
use crate::text::{
    join_from, joined, lemma_joined_suffix, lemma_lines_rejoin, lines_of, result_text, split_lines,
    without_final_line_feed,
};
use vstd::prelude::*;

verus! {

/// How many lines of the log are shown where the caller names no number.
pub const DEFAULT_LOG_LINES: usize = 100;

/// The last `max_lines` of `lines`, or all of them where there are no more.
pub open spec fn last_lines(lines: Seq<Seq<char>>, max_lines: nat) -> Seq<Seq<char>> {
    if lines.len() > max_lines {
        lines.subrange(lines.len() - max_lines, lines.len() as int)
    } else {
        lines
    }
}

/// The end of a log: its last `max_lines` lines in their order, with a line
/// feed between neighbours.
pub open spec fn tail_of(text: Seq<char>, max_lines: nat) -> Seq<char> {
    joined(last_lines(lines_of(text), max_lines), "\n"@)
}

/// The number of lines that a request for the log asks for.
pub open spec fn lines_wanted(lines: Option<usize>) -> nat {
    match lines {
        Some(n) => n as nat,
        None => DEFAULT_LOG_LINES as nat,
    }
}

/// The answer to a request for the log. `None` in the place of the log means
/// that the user's home directory, and with it the log's path, is not known.
/// A log that does not exist yet is no error: a sentence says so.
pub open spec fn log_reply(log: Option<FileText>, lines: Option<usize>) -> Result<
    Seq<char>,
    Seq<char>,
> {
    match log {
        None => Err("Could not find home directory"@),
        Some(FileText::Absent) => Ok("No logs available yet. Start the gateway to see logs."@),
        Some(FileText::Unreadable { detail }) => Err("Failed to read log file: "@ + detail),
        Some(FileText::Content { text }) => Ok(tail_of(text, lines_wanted(lines))),
    }
}

/// What the log that a caller found holds.
pub open spec fn found_text(log: Option<&FileSnapshot>) -> Option<FileText> {
    match log {
        Some(file) => Some(file@),
        None => None,
    }
}

/// Writes the end of a log.
pub fn tail(text: &str, max_lines: usize) -> (shown: String)
    ensures
        shown@ == tail_of(text@, max_lines as nat),
{
    let lines = split_lines(text);
    let start = if lines.len() > max_lines {
        lines.len() - max_lines
    } else {
        0
    };
    proof {
        let all = lines.deep_view();
        assert(all.len() == lines.len());
        lemma_joined_suffix(all, start as int, 0, "\n"@);
        if start == 0 {
            assert(all.subrange(0, all.len() as int) =~= all);
        }
    }
    join_from(&lines, start, "\n")
}

/// Answers a request for the log from what was found in its place: the last
/// `lines` lines of it, or the last hundred where `lines` is `None`.
pub fn get_gateway_logs(log: Option<&FileSnapshot>, lines: Option<usize>) -> (reply: Result<
    String,
    String,
>)
    ensures
        result_text(reply) == log_reply(found_text(log), lines),
{
    match log {
        None => Err(String::from_str("Could not find home directory")),
        Some(FileSnapshot::Absent) => Ok(
            String::from_str("No logs available yet. Start the gateway to see logs."),
        ),
        Some(FileSnapshot::Unreadable { detail }) => {
            let mut message = String::from_str("Failed to read log file: ");
            message.append(detail.as_str());
            Err(message)
        },
        Some(FileSnapshot::Content { text }) => {
            let max_lines = match lines {
                Some(n) => n,
                None => DEFAULT_LOG_LINES,
            };
            Ok(tail(text.as_str(), max_lines))
        },
    }
}

/// What clearing the log asks of the caller.
#[derive(Clone, Copy, Debug, PartialEq, Eq, Structural)]
pub enum ClearAction {
    /// There is no log: nothing to do.
    Nothing,
    /// Empty the log, keeping the file.
    Truncate,
}

/// What is to be done to clear a log. `exists` says whether the log exists,
/// and is `None` where the user's home directory is not known.
pub open spec fn clear_plan(exists: Option<bool>) -> Result<ClearAction, Seq<char>> {
    match exists {
        None => Err("Could not find home directory"@),
        Some(true) => Ok(ClearAction::Truncate),
        Some(false) => Ok(ClearAction::Nothing),
    }
}

/// What a clearing plan, or the error in its place, holds.
pub open spec fn plan_text(plan: Result<ClearAction, String>) -> Result<ClearAction, Seq<char>> {
    match plan {
        Ok(action) => Ok(action),
        Err(e) => Err(e@),
    }
}

/// The log after `action` was performed on it.
pub open spec fn cleared(log: FileText, action: ClearAction) -> FileText {
    match action {
        ClearAction::Nothing => log,
        ClearAction::Truncate => FileText::Content { text: Seq::empty() },
    }
}

/// Decides how to clear the log: an existing log is emptied, a missing one is
/// left missing, and both count as success.
pub fn clear_gateway_logs(exists: Option<bool>) -> (plan: Result<ClearAction, String>)
    ensures
        plan_text(plan) == clear_plan(exists),
{
    match exists {
        None => Err(String::from_str("Could not find home directory")),
        Some(true) => Ok(ClearAction::Truncate),
        Some(false) => Ok(ClearAction::Nothing),
    }
}

/// The error of a log that could not be emptied, from what the operating
/// system said.
pub fn clear_failure(detail: &str) -> (message: String)
    ensures
        message@ == "Failed to clear logs: "@ + detail@,
{
    let mut message = String::from_str("Failed to clear logs: ");
    message.append(detail);
    message
}

/// The end of a log is made of its last lines, in their order: of a log with
/// more than `max_lines` lines exactly the last `max_lines`, of any other log
/// every line.
pub proof fn law_tail_keeps_the_last_lines(text: Seq<char>, max_lines: nat)
    ensures
        ({
            let lines = lines_of(text);
            let shown = last_lines(lines, max_lines);
            &&& tail_of(text, max_lines) == joined(shown, "\n"@)
            &&& lines.len() > max_lines ==> shown.len() == max_lines
            &&& lines.len() <= max_lines ==> shown == lines
            &&& forall|i: int|
                0 <= i < shown.len() ==> #[trigger] shown[i] == lines[lines.len() - shown.len() + i]
        }),
{
}

/// A log with no more than `max_lines` lines, and without carriage returns, is
/// shown whole, but for the line feed that may end it.
pub proof fn law_short_log_is_shown_whole(text: Seq<char>, max_lines: nat)
    requires
        lines_of(text).len() <= max_lines,
        forall|i: int| 0 <= i < text.len() ==> text[i] != '\r',
    ensures
        tail_of(text, max_lines) == without_final_line_feed(text),
{
    lemma_lines_rejoin(text);
}

/// Whether there is a file in the place of the log.
pub open spec fn is_there(log: FileText) -> bool {
    !(log is Absent)
}

/// Clearing succeeds whether or not there is a log. A log that existed reads
/// as empty afterwards, whatever number of lines is asked for; a log that was
/// missing is still missing, and reading it still gives the sentence that says
/// so.
pub proof fn law_cleared_log_reads_empty(log: FileText, lines: Option<usize>)
    ensures
        clear_plan(Some(is_there(log))) is Ok,
        ({
            let after = cleared(log, clear_plan(Some(is_there(log)))->Ok_0);
            &&& is_there(log) ==> log_reply(Some(after), lines) == Ok::<Seq<char>, Seq<char>>(
                Seq::empty(),
            )
            &&& !is_there(log) ==> after == log && log_reply(Some(after), lines) == log_reply(
                Some(FileText::Absent),
                lines,
            )
        }),
{
    let none: Seq<char> = Seq::empty();
    assert(lines_of(none) =~= Seq::<Seq<char>>::empty());
    assert(tail_of(none, lines_wanted(lines)) =~= none);
}

} // verus!
