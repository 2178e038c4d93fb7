//! The command lines that the supervisor has its caller run.

use crate::identity::DaemonIdentity;
use crate::platform::Platform;
use vstd::prelude::*;

verus! {

/// A command for the caller to run: a program, its arguments in order, and
/// whether the process must start without a console window of its own.
#[derive(Debug, PartialEq, Eq)]
pub struct CommandLine {
    pub program: String,
    pub args: Vec<String>,
    pub hide_window: bool,
}

/// What a command line holds.
pub struct CommandText {
    pub program: Seq<char>,
    pub args: Seq<Seq<char>>,
    pub hide_window: bool,
}

impl View for CommandLine {
    type V = CommandText;

    open spec fn view(&self) -> CommandText {
        CommandText {
            program: self.program@,
            args: self.args.deep_view(),
            hide_window: self.hide_window,
        }
    }
}

/// The daemon's own command-line tool, with nothing asked of it yet. Windows
/// finds the tool through its command interpreter.
pub open spec fn openclaw_text(platform: Platform) -> CommandText {
    match platform {
        Platform::Windows => CommandText {
            program: "cmd"@,
            args: seq!["/c"@, "openclaw"@],
            hide_window: false,
        },
        Platform::Unix => CommandText {
            program: "openclaw"@,
            args: Seq::empty(),
            hide_window: false,
        },
    }
}

/// The daemon's tool called with `args`.
pub open spec fn invocation_text(platform: Platform, args: Seq<Seq<char>>) -> CommandText {
    CommandText { args: openclaw_text(platform).args + args, ..openclaw_text(platform) }
}

/// The arguments of a lifecycle verb of the daemon's own, such as `stop`.
pub open spec fn control_arguments_text(action: Seq<char>) -> Seq<Seq<char>> {
    seq!["daemon"@, action]
}

/// The arguments that start the gateway in the foreground on the daemon's port.
pub open spec fn launch_arguments_text(identity: DaemonIdentity) -> Seq<Seq<char>> {
    seq!["gateway"@, "--port"@, identity.port_text(), "--verbose"@]
}

/// The command that starts the gateway: in the foreground, on the daemon's
/// port, verbose, and on Windows without a console window.
pub open spec fn launch_text(identity: DaemonIdentity, platform: Platform) -> CommandText {
    CommandText {
        hide_window: platform == Platform::Windows,
        ..invocation_text(platform, launch_arguments_text(identity))
    }
}

/// The command whose success means that the daemon's tool is on the search
/// path.
pub open spec fn install_check_text(platform: Platform) -> CommandText {
    match platform {
        Platform::Windows => CommandText {
            program: "cmd"@,
            args: seq!["/c"@, "where"@, "openclaw"@],
            hide_window: false,
        },
        Platform::Unix => CommandText {
            program: "which"@,
            args: seq!["openclaw"@],
            hide_window: false,
        },
    }
}

/// The command that installs the daemon's tool for every user.
pub open spec fn install_text() -> CommandText {
    CommandText { program: "npm"@, args: seq!["install"@, "-g"@, "openclaw"@], hide_window: false }
}

/// Builds the command of the daemon's tool, with nothing asked of it yet.
pub fn openclaw_command(platform: Platform) -> (command: CommandLine)
    ensures
        command@ == openclaw_text(platform),
{
    let mut args: Vec<String> = Vec::new();
    let program = match platform {
        Platform::Windows => {
            args.push(String::from_str("/c"));
            args.push(String::from_str("openclaw"));
            String::from_str("cmd")
        },
        Platform::Unix => String::from_str("openclaw"),
    };
    assert(args.deep_view() =~= openclaw_text(platform).args);
    CommandLine { program, args, hide_window: false }
}

/// Builds the command that calls the daemon's tool with `args`.
pub fn openclaw_invocation(platform: Platform, args: Vec<String>) -> (command: CommandLine)
    ensures
        command@ == invocation_text(platform, args.deep_view()),
{
    let mut command = openclaw_command(platform);
    let ghost base = command.args.deep_view();
    let ghost extra = args.deep_view();
    let mut args = args;
    command.args.append(&mut args);
    assert(command.args.deep_view() =~= base + extra);
    command
}

/// Builds the arguments of the lifecycle verb `action`.
pub fn control_arguments(action: &str) -> (args: Vec<String>)
    ensures
        args.deep_view() == control_arguments_text(action@),
{
    let mut args: Vec<String> = Vec::new();
    args.push(String::from_str("daemon"));
    args.push(String::from_str(action));
    assert(args.deep_view() =~= control_arguments_text(action@));
    args
}

/// Builds the arguments that ask the tool for its version.
pub fn version_arguments() -> (args: Vec<String>)
    ensures
        args.deep_view() == seq!["--version"@],
{
    let mut args: Vec<String> = Vec::new();
    args.push(String::from_str("--version"));
    assert(args.deep_view() =~= seq!["--version"@]);
    args
}

/// Builds the arguments that ask the tool to examine the installation.
pub fn doctor_arguments() -> (args: Vec<String>)
    ensures
        args.deep_view() == seq!["doctor"@],
{
    let mut args: Vec<String> = Vec::new();
    args.push(String::from_str("doctor"));
    assert(args.deep_view() =~= seq!["doctor"@]);
    args
}

/// Builds the command that starts the gateway.
pub fn launch_command(identity: DaemonIdentity, platform: Platform) -> (command: CommandLine)
    ensures
        command@ == launch_text(identity, platform),
{
    let mut args: Vec<String> = Vec::new();
    args.push(String::from_str("gateway"));
    args.push(String::from_str("--port"));
    args.push(crate::text::decimal_string(identity.port));
    args.push(String::from_str("--verbose"));
    assert(args.deep_view() =~= launch_arguments_text(identity));
    let mut command = openclaw_invocation(platform, args);
    command.hide_window = match platform {
        Platform::Windows => true,
        Platform::Unix => false,
    };
    command
}

/// Builds the command that looks for the daemon's tool on the search path.
pub fn install_check_command(platform: Platform) -> (command: CommandLine)
    ensures
        command@ == install_check_text(platform),
{
    let mut args: Vec<String> = Vec::new();
    let program = match platform {
        Platform::Windows => {
            args.push(String::from_str("/c"));
            args.push(String::from_str("where"));
            args.push(String::from_str("openclaw"));
            String::from_str("cmd")
        },
        Platform::Unix => {
            args.push(String::from_str("openclaw"));
            String::from_str("which")
        },
    };
    assert(args.deep_view() =~= install_check_text(platform).args);
    CommandLine { program, args, hide_window: false }
}

/// Builds the command that installs the daemon's tool.
pub fn install_command() -> (command: CommandLine)
    ensures
        command@ == install_text(),
{
    let mut args: Vec<String> = Vec::new();
    args.push(String::from_str("install"));
    args.push(String::from_str("-g"));
    args.push(String::from_str("openclaw"));
    assert(args.deep_view() =~= install_text().args);
    CommandLine { program: String::from_str("npm"), args, hide_window: false }
}

} // verus!
