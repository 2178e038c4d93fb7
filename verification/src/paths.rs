//! Where the daemon keeps its state: a directory under the user's home, with
//! the configuration file and the two log files in it.

use crate::platform::Platform;
use crate::text::{option_str_text, result_text};
use vstd::prelude::*;

verus! {

/// The path of `name` inside `dir`: the two with one separator between them,
/// which `dir` may already end with.
pub open spec fn child_path(dir: Seq<char>, name: Seq<char>, platform: Platform) -> Seq<char> {
    if dir.len() > 0 && platform.separates(dir.last()) {
        dir + name
    } else {
        dir + seq![platform.separator()] + name
    }
}

/// The state directory of a user whose home is `home`.
pub open spec fn state_dir_of(home: Seq<char>, platform: Platform) -> Seq<char> {
    child_path(home, ".openclaw"@, platform)
}

/// The log that receives the daemon's standard output.
pub open spec fn log_path_in(state_dir: Seq<char>, platform: Platform) -> Seq<char> {
    child_path(state_dir, "gateway.log"@, platform)
}

/// The log that receives the daemon's standard error.
pub open spec fn error_log_path_in(state_dir: Seq<char>, platform: Platform) -> Seq<char> {
    child_path(state_dir, "gateway_error.log"@, platform)
}

/// The configuration file that the daemon writes today.
pub open spec fn config_path_of(home: Seq<char>, platform: Platform) -> Seq<char> {
    child_path(state_dir_of(home, platform), "openclaw.json"@, platform)
}

/// The configuration file of installations under the daemon's former name.
pub open spec fn legacy_config_path_of(home: Seq<char>, platform: Platform) -> Seq<char> {
    child_path(child_path(home, ".clawdbot"@, platform), "clawdbot.json"@, platform)
}

/// The state directory of a user whose home directory is known, and the error
/// of one whose home directory is not.
pub open spec fn state_dir_result(home: Option<Seq<char>>, platform: Platform) -> Result<
    Seq<char>,
    Seq<char>,
> {
    match home {
        Some(h) => Ok(state_dir_of(h, platform)),
        None => Err("Could not find home directory"@),
    }
}

/// What a pair of paths, or the error in its place, holds.
pub open spec fn paths_text(paths: Result<(String, String), String>) -> Result<
    (Seq<char>, Seq<char>),
    Seq<char>,
> {
    match paths {
        Ok(p) => Ok((p.0@, p.1@)),
        Err(e) => Err(e@),
    }
}

/// The places where a configuration file is looked for, in the order in which
/// they are tried.
pub open spec fn config_candidates_of(home: Option<Seq<char>>, platform: Platform) -> Seq<
    Seq<char>,
> {
    match home {
        Some(h) => seq![config_path_of(h, platform), legacy_config_path_of(h, platform)],
        None => Seq::empty(),
    }
}

/// What `gateway_log_paths` gives for a state directory that was resolved or
/// could not be.
pub open spec fn log_paths_of(
    state_dir: Result<Seq<char>, Seq<char>>,
    platform: Platform,
) -> Result<(Seq<char>, Seq<char>), Seq<char>> {
    match state_dir {
        Ok(dir) => Ok((log_path_in(dir, platform), error_log_path_in(dir, platform))),
        Err(message) => Err(message),
    }
}

/// Writes the path of `name` inside `dir`.
pub fn join_path(dir: &str, name: &str, platform: Platform) -> (path: String)
    ensures
        path@ == child_path(dir@, name@, platform),
{
    let n = dir.unicode_len();
    let mut path = String::from_str(dir);
    if !(n > 0 && platform.is_separator(dir.get_char(n - 1))) {
        path.append(platform.separator_str());
    }
    path.append(name);
    path
}

/// The state directory, `<home>/.openclaw`, or the error of a user whose home
/// directory could not be determined. The directory is only named here: the
/// caller creates it where it is missing.
pub fn openclaw_home_dir(home: Option<&str>, platform: Platform) -> (dir: Result<String, String>)
    ensures
        result_text(dir) == state_dir_result(option_str_text(home), platform),
{
    match home {
        Some(h) => Ok(join_path(h, ".openclaw", platform)),
        None => Err(String::from_str("Could not find home directory")),
    }
}

/// The error of a state directory that could not be created, from what the
/// operating system said.
pub fn create_dir_failure(detail: &str) -> (message: String)
    ensures
        message@ == "Failed to create OpenClaw directory: "@ + detail@,
{
    let mut message = String::from_str("Failed to create OpenClaw directory: ");
    message.append(detail);
    message
}

/// The paths of the output log and of the error log inside the state
/// directory, in this order; the error of a state directory that could not be
/// resolved is handed on. No file is created.
pub fn gateway_log_paths(state_dir: Result<String, String>, platform: Platform) -> (paths: Result<
    (String, String),
    String,
>)
    ensures
        paths_text(paths) == log_paths_of(result_text(state_dir), platform),
{
    match state_dir {
        Ok(dir) => Ok(
            (
                join_path(dir.as_str(), "gateway.log", platform),
                join_path(dir.as_str(), "gateway_error.log", platform),
            ),
        ),
        Err(message) => Err(message),
    }
}

/// The output log of a user whose home is `home`. Reading and clearing the log
/// go by this path and leave the state directory as it is.
pub fn gateway_log_file(home: &str, platform: Platform) -> (path: String)
    ensures
        path@ == log_path_in(state_dir_of(home@, platform), platform),
{
    let dir = join_path(home, ".openclaw", platform);
    join_path(dir.as_str(), "gateway.log", platform)
}

/// The places where a configuration file is looked for, in the order in which
/// they are tried: today's, then the former one. Without a home directory there
/// is no place to look.
pub fn config_candidates(home: Option<&str>, platform: Platform) -> (paths: Vec<String>)
    ensures
        paths.deep_view() == config_candidates_of(option_str_text(home), platform),
{
    let mut paths: Vec<String> = Vec::new();
    match home {
        Some(h) => {
            let dir = join_path(h, ".openclaw", platform);
            let legacy_dir = join_path(h, ".clawdbot", platform);
            paths.push(join_path(dir.as_str(), "openclaw.json", platform));
            paths.push(join_path(legacy_dir.as_str(), "clawdbot.json", platform));
        },
        None => {},
    }
    assert(paths.deep_view() =~= config_candidates_of(option_str_text(home), platform));
    paths
}

} // verus!
