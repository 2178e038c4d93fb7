//! Snapshots of the daemon's state, computed afresh for every request and
//! never kept.

use crate::control::{
    detect_openclaw_version, installed_reply, is_openclaw_installed, ran_text, version_reply,
    CommandOutput, OutputText,
};
use crate::identity::DaemonIdentity;
use crate::paths::paths_text;
use crate::text::option_text;
use vstd::prelude::*;

verus! {

/// Whether the daemon is reachable, and where.
#[derive(Debug, PartialEq, Eq)]
pub struct GatewayStatus {
    pub running: bool,
    pub port: u16,
    pub dashboard_url: String,
}

/// What a status holds.
pub struct StatusText {
    pub running: bool,
    pub port: u16,
    pub dashboard_url: Seq<char>,
}

impl View for GatewayStatus {
    type V = StatusText;

    open spec fn view(&self) -> StatusText {
        StatusText { running: self.running, port: self.port, dashboard_url: self.dashboard_url@ }
    }
}

/// Several independent facts about the daemon, read at one moment.
#[derive(Debug, PartialEq, Eq)]
pub struct GatewayDiagnostics {
    pub openclaw_installed: bool,
    pub gateway_running: bool,
    pub gateway_port: u16,
    pub dashboard_url: String,
    pub openclaw_version: Option<String>,
    pub profile_name: Option<String>,
    pub log_path: String,
    pub error_log_path: String,
}

/// What diagnostics hold.
pub struct DiagnosticsText {
    pub openclaw_installed: bool,
    pub gateway_running: bool,
    pub gateway_port: u16,
    pub dashboard_url: Seq<char>,
    pub openclaw_version: Option<Seq<char>>,
    pub profile_name: Option<Seq<char>>,
    pub log_path: Seq<char>,
    pub error_log_path: Seq<char>,
}

impl View for GatewayDiagnostics {
    type V = DiagnosticsText;

    open spec fn view(&self) -> DiagnosticsText {
        DiagnosticsText {
            openclaw_installed: self.openclaw_installed,
            gateway_running: self.gateway_running,
            gateway_port: self.gateway_port,
            dashboard_url: self.dashboard_url@,
            openclaw_version: option_text(self.openclaw_version),
            profile_name: option_text(self.profile_name),
            log_path: self.log_path@,
            error_log_path: self.error_log_path@,
        }
    }
}

/// The status of the daemon `identity`, given what the probe found.
pub open spec fn status_text(identity: DaemonIdentity, running: bool) -> StatusText {
    StatusText { running, port: identity.port, dashboard_url: identity.base_url_text() }
}

/// The diagnostics of the daemon `identity`. They fail only where the log paths
/// could not be resolved. Every other finding that is missing shows as `false`
/// or `None` in its own field: a search for the tool that could not be run, a
/// daemon that does not answer, a version that the tool did not report, a
/// profile name that is not set.
pub open spec fn diagnostics_text(
    identity: DaemonIdentity,
    paths: Result<(Seq<char>, Seq<char>), Seq<char>>,
    install_check: Result<OutputText, Seq<char>>,
    running: bool,
    version_run: Result<OutputText, Seq<char>>,
    profile_name: Option<Seq<char>>,
) -> Result<DiagnosticsText, Seq<char>> {
    match paths {
        Err(message) => Err(message),
        Ok(found) => Ok(
            DiagnosticsText {
                openclaw_installed: installed_reply(install_check),
                gateway_running: running,
                gateway_port: identity.port,
                dashboard_url: identity.base_url_text(),
                openclaw_version: version_reply(version_run),
                profile_name,
                log_path: found.0,
                error_log_path: found.1,
            },
        ),
    }
}

/// What diagnostics, or the error in their place, hold.
pub open spec fn diagnostics_result_text(r: Result<GatewayDiagnostics, String>) -> Result<
    DiagnosticsText,
    Seq<char>,
> {
    match r {
        Ok(d) => Ok(d@),
        Err(e) => Err(e@),
    }
}

/// Composes the status from the one probe it rests on.
pub fn get_gateway_status(identity: DaemonIdentity, running: bool) -> (status: GatewayStatus)
    ensures
        status@ == status_text(identity, running),
{
    GatewayStatus { running, port: identity.port, dashboard_url: identity.base_url() }
}

/// Composes the diagnostics from the findings of their parts: the log paths as
/// resolved, what became of the search for the tool, what the probe found, what
/// became of the question for the version, and the profile name from the
/// environment.
pub fn get_gateway_diagnostics(
    identity: DaemonIdentity,
    paths: Result<(String, String), String>,
    install_check: Result<CommandOutput, String>,
    running: bool,
    version_run: Result<CommandOutput, String>,
    profile_name: Option<String>,
) -> (diagnostics: Result<GatewayDiagnostics, String>)
    ensures
        diagnostics_result_text(diagnostics) == diagnostics_text(
            identity,
            paths_text(paths),
            ran_text(install_check),
            running,
            ran_text(version_run),
            option_text(profile_name),
        ),
{
    match paths {
        Err(message) => Err(message),
        Ok(found) => Ok(
            GatewayDiagnostics {
                openclaw_installed: is_openclaw_installed(install_check),
                gateway_running: running,
                gateway_port: identity.port,
                dashboard_url: identity.base_url(),
                openclaw_version: detect_openclaw_version(version_run),
                profile_name,
                log_path: found.0,
                error_log_path: found.1,
            },
        ),
    }
}

} // verus!
