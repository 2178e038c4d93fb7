//! Reading what the daemon's own tool reported.
//!
//! Stopping, restarting and examining the daemon are left to its command-line
//! tool. The caller runs the command and hands over what became of it; the
//! functions here turn that into the answer for the user.

use crate::command::{control_arguments, control_arguments_text, doctor_arguments};
use crate::text::{
    is_blank, is_whitespace, join_from, joined, lemma_trimmed, option_text, result_text, trim, trimmed,
};
use vstd::prelude::*;

verus! {

/// What a command left behind when it ended: whether it reported success, and
/// what it wrote to its two output streams.
#[derive(Debug, PartialEq, Eq)]
pub struct CommandOutput {
    pub success: bool,
    pub stdout: String,
    pub stderr: String,
}

/// What a command's output holds.
pub struct OutputText {
    pub success: bool,
    pub stdout: Seq<char>,
    pub stderr: Seq<char>,
}

impl View for CommandOutput {
    type V = OutputText;

    open spec fn view(&self) -> OutputText {
        OutputText { success: self.success, stdout: self.stdout@, stderr: self.stderr@ }
    }
}

/// What became of a command: its output, or the operating system's words on
/// why it could not be run.
pub open spec fn ran_text(ran: Result<CommandOutput, String>) -> Result<OutputText, Seq<char>> {
    match ran {
        Ok(output) => Ok(output@),
        Err(detail) => Err(detail@),
    }
}

/// The error of a call of the daemon's tool that could not be run.
pub open spec fn run_failure_text(args: Seq<Seq<char>>, detail: Seq<char>) -> Seq<char> {
    "Failed to run openclaw "@ + joined(args, " "@) + ": "@ + detail
}

/// A call of the daemon's tool with `args`: its output, or the error that names
/// the call.
pub open spec fn run_output_text(args: Seq<Seq<char>>, ran: Result<OutputText, Seq<char>>) -> Result<
    OutputText,
    Seq<char>,
> {
    match ran {
        Ok(output) => Ok(output),
        Err(detail) => Err(run_failure_text(args, detail)),
    }
}

/// The answer to a lifecycle verb. What the tool wrote is passed on without the
/// white space around it: its standard output where it succeeded, its standard
/// error where it failed. Where it wrote nothing, a sentence of the supervisor's
/// own stands in.
pub open spec fn control_reply(action: Seq<char>, ran: Result<OutputText, Seq<char>>) -> Result<
    Seq<char>,
    Seq<char>,
> {
    match run_output_text(control_arguments_text(action), ran) {
        Err(message) => Err(message),
        Ok(output) => if output.success {
            if is_blank(output.stdout) {
                Ok("Gateway "@ + action + " command sent"@)
            } else {
                Ok(trimmed(output.stdout))
            }
        } else {
            if is_blank(output.stderr) {
                Err("openclaw gateway "@ + action + " failed"@)
            } else {
                Err(trimmed(output.stderr))
            }
        },
    }
}

/// The version that the tool reported: its standard output without the white
/// space around it, where the tool ran, succeeded and wrote any.
pub open spec fn version_reply(ran: Result<OutputText, Seq<char>>) -> Option<Seq<char>> {
    match ran {
        Ok(output) => if output.success && !is_blank(output.stdout) {
            Some(trimmed(output.stdout))
        } else {
            None
        },
        Err(_) => None,
    }
}

/// `text` after a blank line, or nothing where `text` is blank.
pub open spec fn paragraph(text: Seq<char>) -> Seq<char> {
    if is_blank(text) {
        Seq::empty()
    } else {
        "\n\n"@ + trimmed(text)
    }
}

/// The answer to an examination of the installation. A success passes the
/// tool's report on as it was written. A failure says so, then gives what the
/// tool wrote to its standard error and to its standard output, each as a
/// paragraph of its own.
pub open spec fn doctor_reply(ran: Result<OutputText, Seq<char>>) -> Result<Seq<char>, Seq<char>> {
    match run_output_text(seq!["doctor"@], ran) {
        Err(message) => Err(message),
        Ok(output) => if output.success {
            if is_blank(output.stdout) {
                Ok("OpenClaw doctor finished with no output"@)
            } else {
                Ok(output.stdout)
            }
        } else {
            Err("OpenClaw doctor failed"@ + paragraph(output.stderr) + paragraph(output.stdout))
        },
    }
}

/// The answer to an installation of the tool.
pub open spec fn install_reply(ran: Result<OutputText, Seq<char>>) -> Result<Seq<char>, Seq<char>> {
    match ran {
        Err(detail) => Err("Failed to install: "@ + detail),
        Ok(output) => if output.success {
            Ok("OpenClaw installed successfully"@)
        } else {
            Err(output.stderr)
        },
    }
}

/// Whether the search for the tool found it.
pub open spec fn installed_reply(ran: Result<OutputText, Seq<char>>) -> bool {
    match ran {
        Ok(output) => output.success,
        Err(_) => false,
    }
}

/// Writes the error of a call of the daemon's tool that could not be run.
fn run_failure(args: &Vec<String>, detail: &str) -> (message: String)
    ensures
        message@ == run_failure_text(args.deep_view(), detail@),
{
    let mut message = String::from_str("Failed to run openclaw ");
    let words = join_from(args, 0, " ");
    message.append(words.as_str());
    message.append(": ");
    message.append(detail);
    message
}

/// What a call of the daemon's tool with `args` came to: the output of a
/// command that ran, whatever it reported, or the error of one that could not
/// be run.
pub fn run_openclaw_output(args: &Vec<String>, ran: Result<CommandOutput, String>) -> (output:
    Result<CommandOutput, String>)
    ensures
        ran_text(output) == run_output_text(args.deep_view(), ran_text(ran)),
{
    match ran {
        Ok(output) => Ok(output),
        Err(detail) => Err(run_failure(args, detail.as_str())),
    }
}

/// The answer to the lifecycle verb `action`, from what became of
/// `openclaw daemon <action>`.
pub fn run_openclaw_gateway_control(action: &str, ran: Result<CommandOutput, String>) -> (reply:
    Result<String, String>)
    ensures
        result_text(reply) == control_reply(action@, ran_text(ran)),
{
    let args = control_arguments(action);
    match run_openclaw_output(&args, ran) {
        Err(message) => Err(message),
        Ok(output) => {
            if output.success {
                let stdout = trim(output.stdout.as_str());
                if stdout.is_empty() {
                    let mut message = String::from_str("Gateway ");
                    message.append(action);
                    message.append(" command sent");
                    Ok(message)
                } else {
                    Ok(String::from_str(stdout))
                }
            } else {
                let stderr = trim(output.stderr.as_str());
                if stderr.is_empty() {
                    let mut message = String::from_str("openclaw gateway ");
                    message.append(action);
                    message.append(" failed");
                    Err(message)
                } else {
                    Err(String::from_str(stderr))
                }
            }
        },
    }
}

/// The answer to a request to stop the gateway, from what became of
/// `openclaw daemon stop`. A daemon that was not running is the tool's to
/// report.
pub fn stop_gateway(ran: Result<CommandOutput, String>) -> (reply: Result<String, String>)
    ensures
        result_text(reply) == control_reply("stop"@, ran_text(ran)),
{
    run_openclaw_gateway_control("stop", ran)
}

/// The answer to a request to restart the gateway, from what became of
/// `openclaw daemon restart`.
pub fn restart_gateway(ran: Result<CommandOutput, String>) -> (reply: Result<String, String>)
    ensures
        result_text(reply) == control_reply("restart"@, ran_text(ran)),
{
    run_openclaw_gateway_control("restart", ran)
}

/// The installed version, from what became of `openclaw --version`; `None`
/// where the tool could not be run, failed or wrote nothing.
pub fn detect_openclaw_version(ran: Result<CommandOutput, String>) -> (version: Option<String>)
    ensures
        option_text(version) == version_reply(ran_text(ran)),
{
    match ran {
        Err(_) => None,
        Ok(output) => {
            if !output.success {
                return None;
            }
            let text = trim(output.stdout.as_str());
            if text.is_empty() {
                None
            } else {
                Some(String::from_str(text))
            }
        },
    }
}

/// Appends `text` to `message` as a paragraph, where it is not blank.
fn push_paragraph(message: &mut String, text: &str)
    ensures
        final(message)@ == old(message)@ + paragraph(text@),
{
    let body = trim(text);
    if !body.is_empty() {
        message.append("\n\n");
        message.append(body);
        assert(message@ =~= old(message)@ + paragraph(text@));
    } else {
        assert(message@ =~= old(message)@ + paragraph(text@));
    }
}

/// The answer to an examination of the installation, from what became of
/// `openclaw doctor`.
pub fn run_openclaw_doctor(ran: Result<CommandOutput, String>) -> (reply: Result<String, String>)
    ensures
        result_text(reply) == doctor_reply(ran_text(ran)),
{
    let args = doctor_arguments();
    match run_openclaw_output(&args, ran) {
        Err(message) => Err(message),
        Ok(output) => {
            if output.success {
                if trim(output.stdout.as_str()).is_empty() {
                    Ok(String::from_str("OpenClaw doctor finished with no output"))
                } else {
                    Ok(output.stdout)
                }
            } else {
                let mut message = String::from_str("OpenClaw doctor failed");
                push_paragraph(&mut message, output.stderr.as_str());
                push_paragraph(&mut message, output.stdout.as_str());
                Err(message)
            }
        },
    }
}

/// The answer to an installation of the tool, from what became of
/// `npm install -g openclaw`. A failed installation answers with what the
/// installer wrote to its standard error, as it was written.
pub fn install_openclaw(ran: Result<CommandOutput, String>) -> (reply: Result<String, String>)
    ensures
        result_text(reply) == install_reply(ran_text(ran)),
{
    match ran {
        Err(detail) => {
            let mut message = String::from_str("Failed to install: ");
            message.append(detail.as_str());
            Err(message)
        },
        Ok(output) => {
            if output.success {
                Ok(String::from_str("OpenClaw installed successfully"))
            } else {
                Err(output.stderr)
            }
        },
    }
}

/// Whether the daemon's tool is installed, from what became of the search for
/// it. A search that could not be run counts as a tool that is not there.
pub fn is_openclaw_installed(ran: Result<CommandOutput, String>) -> (installed: bool)
    ensures
        installed == installed_reply(ran_text(ran)),
{
    match ran {
        Ok(output) => output.success,
        Err(_) => false,
    }
}

/// A lifecycle verb is never answered with nothing: whether the tool ran or
/// not, succeeded or not, wrote anything or not, the answer holds a message.
/// What the tool wrote is passed on where it wrote anything but white space, and
/// then without white space at either end.
pub proof fn law_control_always_answers(action: Seq<char>, ran: Result<OutputText, Seq<char>>)
    ensures
        control_reply(action, ran) matches Ok(message) ==> message.len() > 0,
        control_reply(action, ran) matches Err(message) ==> message.len() > 0,
        ran matches Ok(output) ==> (output.success <==> control_reply(action, ran) is Ok),
        ran is Err ==> control_reply(action, ran) is Err,
{
    reveal_strlit("Gateway ");
    reveal_strlit("openclaw gateway ");
    reveal_strlit("Failed to run openclaw ");
}

/// The version is reported only as something to read: it is never blank, and
/// carries no white space at either end.
pub proof fn law_version_is_never_blank(ran: Result<OutputText, Seq<char>>)
    ensures
        version_reply(ran) matches Some(version) ==> version.len() > 0 && !is_whitespace(
            version.first(),
        ) && !is_whitespace(version.last()),
        version_reply(ran) is Some ==> ran is Ok && ran->Ok_0.success,
{
    if let Ok(output) = ran {
        lemma_trimmed(output.stdout);
    }
}

/// Every way an examination can end gives an answer that holds something, and
/// a failure is told from a success by the tool's own verdict.
pub proof fn law_doctor_always_answers(ran: Result<OutputText, Seq<char>>)
    ensures
        doctor_reply(ran) matches Ok(message) ==> message.len() > 0,
        doctor_reply(ran) matches Err(message) ==> message.len() > 0,
        ran matches Ok(output) ==> (output.success <==> doctor_reply(ran) is Ok),
{
    reveal_strlit("OpenClaw doctor finished with no output");
    reveal_strlit("OpenClaw doctor failed");
    reveal_strlit("Failed to run openclaw ");
    if let Ok(output) = ran {
        if output.success && !is_blank(output.stdout) {
            lemma_trimmed(output.stdout);
        }
    }
}

} // verus!
