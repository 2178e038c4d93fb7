use gateway_supervisor::control::CommandOutput;
use gateway_supervisor::identity::DaemonIdentity;
use gateway_supervisor::paths::{gateway_log_paths, openclaw_home_dir};
use gateway_supervisor::platform::Platform;
use gateway_supervisor::status::{
    get_gateway_diagnostics, get_gateway_status, GatewayDiagnostics, GatewayStatus,
};

fn output(success: bool, stdout: &str) -> Result<CommandOutput, String> {
    Ok(CommandOutput { success, stdout: stdout.to_string(), stderr: String::new() })
}

fn paths() -> Result<(String, String), String> {
    gateway_log_paths(openclaw_home_dir(Some("/home/ada"), Platform::Unix), Platform::Unix)
}

#[test]
fn status_of_a_running_daemon() {
    assert_eq!(
        get_gateway_status(DaemonIdentity::gateway(), true),
        GatewayStatus { running: true, port: 18789, dashboard_url: "http://127.0.0.1:18789/".to_string() }
    );
}

#[test]
fn status_of_a_stopped_daemon() {
    assert_eq!(
        get_gateway_status(DaemonIdentity { port: 81 }, false),
        GatewayStatus { running: false, port: 81, dashboard_url: "http://127.0.0.1:81/".to_string() }
    );
}

#[test]
fn diagnostics_of_a_healthy_installation() {
    assert_eq!(
        get_gateway_diagnostics(
            DaemonIdentity::gateway(),
            paths(),
            output(true, "/usr/local/bin/openclaw\n"),
            true,
            output(true, "2026.1.29\n"),
            Some("work".to_string()),
        ),
        Ok(GatewayDiagnostics {
            openclaw_installed: true,
            gateway_running: true,
            gateway_port: 18789,
            dashboard_url: "http://127.0.0.1:18789/".to_string(),
            openclaw_version: Some("2026.1.29".to_string()),
            profile_name: Some("work".to_string()),
            log_path: "/home/ada/.openclaw/gateway.log".to_string(),
            error_log_path: "/home/ada/.openclaw/gateway_error.log".to_string(),
        })
    );
}

#[test]
fn diagnostics_of_a_fresh_state_directory() {
    for installed in [false, true] {
        let diagnostics = get_gateway_diagnostics(
            DaemonIdentity::gateway(),
            paths(),
            output(installed, ""),
            false,
            Err("No such file or directory (os error 2)".to_string()),
            None,
        )
        .unwrap();
        assert_eq!(diagnostics.openclaw_installed, installed);
        assert!(!diagnostics.gateway_running);
        assert_eq!(diagnostics.openclaw_version, None);
        assert_eq!(diagnostics.profile_name, None);
        assert_eq!(diagnostics.log_path, "/home/ada/.openclaw/gateway.log");
        assert_eq!(diagnostics.error_log_path, "/home/ada/.openclaw/gateway_error.log");
    }
}

#[test]
fn diagnostics_degrade_field_by_field() {
    let diagnostics = get_gateway_diagnostics(
        DaemonIdentity::gateway(),
        paths(),
        Err("which: not found".to_string()),
        true,
        output(false, "1.0"),
        None,
    )
    .unwrap();
    assert!(!diagnostics.openclaw_installed);
    assert!(diagnostics.gateway_running);
    assert_eq!(diagnostics.openclaw_version, None);
}

#[test]
fn diagnostics_fail_without_log_paths() {
    assert_eq!(
        get_gateway_diagnostics(
            DaemonIdentity::gateway(),
            gateway_log_paths(openclaw_home_dir(None, Platform::Unix), Platform::Unix),
            output(true, ""),
            true,
            output(true, "1.0"),
            None,
        ),
        Err("Could not find home directory".to_string())
    );
    assert_eq!(
        get_gateway_diagnostics(
            DaemonIdentity::gateway(),
            Err("Failed to create OpenClaw directory: Read-only file system".to_string()),
            output(true, ""),
            true,
            output(true, "1.0"),
            None,
        ),
        Err("Failed to create OpenClaw directory: Read-only file system".to_string())
    );
}
