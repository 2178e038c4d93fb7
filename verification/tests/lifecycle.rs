use gateway_supervisor::command::launch_command;
use gateway_supervisor::identity::DaemonIdentity;
use gateway_supervisor::lifecycle::{
    auto_start_gateway, start_gateway, Effect, OpenMode, StartOutcome, StartSequence,
};
use gateway_supervisor::platform::Platform;

fn ok(value: &str) -> Result<String, String> {
    Ok(value.to_string())
}

fn err(detail: &str) -> Result<String, String> {
    Err(detail.to_string())
}

/// Runs a start against scripted replies and returns every effect named,
/// the first one included.
fn run(replies: Vec<Result<String, String>>) -> Vec<Effect> {
    let (mut sequence, first) = StartSequence::begin(DaemonIdentity::gateway(), Platform::Unix);
    let mut effects = vec![first];
    for reply in replies {
        let (next, effect) = sequence.advance(reply);
        sequence = next;
        effects.push(effect);
    }
    effects
}

fn spawns(effects: &[Effect]) -> usize {
    effects.iter().filter(|e| matches!(e, Effect::Spawn { .. })).count()
}

fn fresh() -> OpenMode {
    OpenMode { create: true, write: true, truncate: true }
}

fn failed(message: &str) -> Effect {
    Effect::Finish { outcome: StartOutcome::Failed { message: message.to_string() } }
}

#[test]
fn a_start_begins_with_a_probe_of_the_port() {
    let (sequence, first) = StartSequence::begin(DaemonIdentity::gateway(), Platform::Unix);
    assert_eq!(first, Effect::Probe { address: "127.0.0.1:18789".to_string() });
    assert!(!sequence.is_finished());
    let (_, other) = StartSequence::begin(DaemonIdentity { port: 4000 }, Platform::Windows);
    assert_eq!(other, Effect::Probe { address: "127.0.0.1:4000".to_string() });
}

#[test]
fn a_running_daemon_is_left_alone() {
    let effects = run(vec![ok("")]);
    assert_eq!(
        effects,
        vec![
            Effect::Probe { address: "127.0.0.1:18789".to_string() },
            Effect::Finish { outcome: StartOutcome::AlreadyRunning },
        ]
    );
    assert_eq!(spawns(&effects), 0);
}

#[test]
fn a_stopped_daemon_is_launched_in_order() {
    let effects = run(vec![
        err("Connection refused (os error 111)"),
        ok("/home/ada"),
        ok(""),
        ok(""),
        ok(""),
        ok(""),
    ]);
    assert_eq!(
        effects,
        vec![
            Effect::Probe { address: "127.0.0.1:18789".to_string() },
            Effect::FindHome,
            Effect::EnsureDir { path: "/home/ada/.openclaw".to_string() },
            Effect::OpenLog { path: "/home/ada/.openclaw/gateway.log".to_string(), mode: fresh() },
            Effect::OpenErrorLog {
                path: "/home/ada/.openclaw/gateway_error.log".to_string(),
                mode: fresh(),
            },
            Effect::Spawn {
                command: launch_command(DaemonIdentity::gateway(), Platform::Unix),
                stdout: "/home/ada/.openclaw/gateway.log".to_string(),
                stderr: "/home/ada/.openclaw/gateway_error.log".to_string(),
            },
            Effect::Finish { outcome: StartOutcome::Started },
        ]
    );
    assert_eq!(spawns(&effects), 1);
}

#[test]
fn start_twice_in_sequence() {
    let first = run(vec![err("refused"), ok("/home/ada"), ok(""), ok(""), ok(""), ok("")]);
    assert_eq!(spawns(&first), 1);
    match first.last() {
        Some(Effect::Finish { outcome }) => {
            assert_eq!(outcome, &StartOutcome::Started);
            assert_eq!(start_gateway(StartOutcome::Started), Ok("Gateway starting...".to_string()));
        }
        other => panic!("the first start did not finish: {:?}", other),
    }
    let second = run(vec![ok("")]);
    assert_eq!(spawns(&second), 0);
    match second.last() {
        Some(Effect::Finish { outcome }) => {
            assert_eq!(outcome, &StartOutcome::AlreadyRunning);
            assert_eq!(
                start_gateway(StartOutcome::AlreadyRunning),
                Ok("Gateway is already running".to_string())
            );
        }
        other => panic!("the second start did not finish: {:?}", other),
    }
}

#[test]
fn a_start_without_home_fails() {
    let effects = run(vec![err("refused"), err("")]);
    assert_eq!(effects.last(), Some(&failed("Could not find home directory")));
    assert_eq!(spawns(&effects), 0);
}

#[test]
fn a_start_whose_directory_cannot_be_created_fails() {
    let effects = run(vec![err("refused"), ok("/home/ada"), err("Permission denied (os error 13)")]);
    assert_eq!(
        effects.last(),
        Some(&failed("Failed to create OpenClaw directory: Permission denied (os error 13)"))
    );
    assert_eq!(effects.len(), 4);
    assert_eq!(spawns(&effects), 0);
}

#[test]
fn a_start_whose_log_cannot_be_opened_fails() {
    let effects = run(vec![err("refused"), ok("/home/ada"), ok(""), err("Is a directory (os error 21)")]);
    assert_eq!(
        effects.last(),
        Some(&failed("Failed to open gateway log file: Is a directory (os error 21)"))
    );
    assert_eq!(spawns(&effects), 0);
}

#[test]
fn a_start_whose_error_log_cannot_be_opened_fails() {
    let effects = run(vec![err("refused"), ok("/home/ada"), ok(""), ok(""), err("disk full")]);
    assert_eq!(effects.last(), Some(&failed("Failed to open gateway error log file: disk full")));
    assert_eq!(spawns(&effects), 0);
}

#[test]
fn a_start_whose_spawn_fails() {
    let effects = run(vec![
        err("refused"),
        ok("/home/ada"),
        ok(""),
        ok(""),
        ok(""),
        err("No such file or directory (os error 2)"),
    ]);
    assert_eq!(
        effects.last(),
        Some(&failed("Failed to start gateway: No such file or directory (os error 2)"))
    );
    assert_eq!(spawns(&effects), 1);
}

#[test]
fn a_finished_start_stays_finished() {
    let effects = run(vec![ok(""), ok("/home/ada"), err("x"), ok(""), ok(""), ok(""), ok("")]);
    assert_eq!(effects.len(), 8);
    for effect in &effects[1..] {
        assert_eq!(effect, &Effect::Finish { outcome: StartOutcome::AlreadyRunning });
    }
    let failed_run = run(vec![err("refused"), err(""), ok("/home/ada"), ok(""), ok(""), ok("")]);
    for effect in &failed_run[2..] {
        assert_eq!(effect, &failed("Could not find home directory"));
    }
    assert_eq!(spawns(&failed_run), 0);
}

#[test]
fn a_start_on_windows_uses_its_paths_and_command() {
    let (sequence, _) = StartSequence::begin(DaemonIdentity::gateway(), Platform::Windows);
    let (sequence, _) = sequence.advance(err("refused"));
    let (sequence, dir) = sequence.advance(ok("C:\\Users\\ada"));
    assert_eq!(dir, Effect::EnsureDir { path: "C:\\Users\\ada\\.openclaw".to_string() });
    let (sequence, log) = sequence.advance(ok(""));
    assert_eq!(
        log,
        Effect::OpenLog { path: "C:\\Users\\ada\\.openclaw\\gateway.log".to_string(), mode: fresh() }
    );
    let (sequence, error_log) = sequence.advance(ok(""));
    assert_eq!(
        error_log,
        Effect::OpenErrorLog {
            path: "C:\\Users\\ada\\.openclaw\\gateway_error.log".to_string(),
            mode: fresh()
        }
    );
    let (_, spawn) = sequence.advance(ok(""));
    match spawn {
        Effect::Spawn { command, stdout, stderr } => {
            assert_eq!(command.program, "cmd");
            assert!(command.hide_window);
            assert_eq!(stdout, "C:\\Users\\ada\\.openclaw\\gateway.log");
            assert_eq!(stderr, "C:\\Users\\ada\\.openclaw\\gateway_error.log");
        }
        other => panic!("expected a spawn, got {:?}", other),
    }
}

#[test]
fn the_logs_are_opened_afresh() {
    let effects = run(vec![err("refused"), ok("/home/ada"), ok(""), ok("")]);
    for effect in &effects {
        match effect {
            Effect::OpenLog { mode, .. } | Effect::OpenErrorLog { mode, .. } => {
                assert!(mode.create);
                assert!(mode.write);
                assert!(mode.truncate);
            }
            _ => {}
        }
    }
    assert!(matches!(effects[3], Effect::OpenLog { .. }));
    assert!(matches!(effects[4], Effect::OpenErrorLog { .. }));
}

#[test]
fn a_sequence_knows_when_it_has_ended() {
    let (sequence, _) = StartSequence::begin(DaemonIdentity::gateway(), Platform::Unix);
    let (sequence, _) = sequence.advance(err("refused"));
    assert!(!sequence.is_finished());
    let (sequence, _) = sequence.advance(err(""));
    assert!(sequence.is_finished());
    let (sequence, _) = sequence.advance(ok(""));
    assert!(sequence.is_finished());
}

#[test]
fn a_spawn_is_named_on_the_fifth_answer_only() {
    let scripts: Vec<Vec<Result<String, String>>> = vec![
        vec![ok(""), ok(""), ok(""), ok(""), ok(""), ok(""), ok("")],
        vec![err(""), ok("/h"), ok(""), ok(""), ok(""), ok(""), ok("")],
        vec![err(""), ok("/h"), ok(""), ok(""), err(""), ok(""), ok("")],
        vec![err(""), ok("/h"), err(""), ok(""), ok(""), ok(""), ok("")],
        vec![err(""), err(""), ok(""), ok(""), ok(""), ok(""), ok("")],
        vec![err(""), ok("/h"), ok(""), err(""), ok(""), ok(""), ok("")],
    ];
    for script in scripts {
        let effects = run(script);
        for (i, effect) in effects.iter().enumerate() {
            if matches!(effect, Effect::Spawn { .. }) {
                assert_eq!(i, 5);
                assert!(matches!(effects[3], Effect::OpenLog { .. }));
                assert!(matches!(effects[4], Effect::OpenErrorLog { .. }));
            }
        }
        assert!(spawns(&effects) <= 1);
    }
}

#[test]
fn start_answers_with_a_message() {
    assert_eq!(start_gateway(StartOutcome::Started), Ok("Gateway starting...".to_string()));
    assert_eq!(
        start_gateway(StartOutcome::AlreadyRunning),
        Ok("Gateway is already running".to_string())
    );
    assert_eq!(
        start_gateway(StartOutcome::Failed { message: "Failed to start gateway: x".to_string() }),
        Err("Failed to start gateway: x".to_string())
    );
}

#[test]
fn auto_start_answers_whether_it_started_now() {
    assert_eq!(auto_start_gateway(StartOutcome::Started), Ok(true));
    assert_eq!(auto_start_gateway(StartOutcome::AlreadyRunning), Ok(false));
    assert_eq!(
        auto_start_gateway(StartOutcome::Failed { message: "Could not find home directory".to_string() }),
        Err("Could not find home directory".to_string())
    );
}
