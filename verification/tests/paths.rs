use gateway_supervisor::paths::{
    config_candidates, create_dir_failure, gateway_log_file, gateway_log_paths, join_path,
    openclaw_home_dir,
};
use gateway_supervisor::platform::Platform;

#[test]
fn join_path_puts_one_separator_between() {
    assert_eq!(join_path("/home/ada", "x", Platform::Unix), "/home/ada/x");
    assert_eq!(join_path("C:\\Users\\ada", "x", Platform::Windows), "C:\\Users\\ada\\x");
}

#[test]
fn join_path_does_not_double_a_separator() {
    assert_eq!(join_path("/home/ada/", "x", Platform::Unix), "/home/ada/x");
    assert_eq!(join_path("/", "x", Platform::Unix), "/x");
    assert_eq!(join_path("C:\\Users\\ada\\", "x", Platform::Windows), "C:\\Users\\ada\\x");
    assert_eq!(join_path("C:/Users/ada/", "x", Platform::Windows), "C:/Users/ada/x");
}

#[test]
fn join_path_reads_a_backslash_as_a_name_on_unix() {
    assert_eq!(join_path("/home/ada\\", "x", Platform::Unix), "/home/ada\\/x");
}

#[test]
fn join_path_of_an_empty_directory() {
    assert_eq!(join_path("", "x", Platform::Unix), "/x");
}

#[test]
fn join_path_handles_names_beyond_ascii() {
    assert_eq!(join_path("/home/zoë", "x", Platform::Unix), "/home/zoë/x");
    assert_eq!(join_path("/home/日本/", "x", Platform::Unix), "/home/日本/x");
}

#[test]
fn state_dir_lies_under_home() {
    assert_eq!(
        openclaw_home_dir(Some("/home/ada"), Platform::Unix),
        Ok("/home/ada/.openclaw".to_string())
    );
    assert_eq!(
        openclaw_home_dir(Some("C:\\Users\\ada"), Platform::Windows),
        Ok("C:\\Users\\ada\\.openclaw".to_string())
    );
}

#[test]
fn state_dir_without_home_is_an_error() {
    assert_eq!(
        openclaw_home_dir(None, Platform::Unix),
        Err("Could not find home directory".to_string())
    );
}

#[test]
fn create_dir_failure_names_the_cause() {
    assert_eq!(
        create_dir_failure("Permission denied (os error 13)"),
        "Failed to create OpenClaw directory: Permission denied (os error 13)"
    );
}

#[test]
fn log_paths_lie_in_the_state_dir() {
    assert_eq!(
        gateway_log_paths(Ok("/home/ada/.openclaw".to_string()), Platform::Unix),
        Ok((
            "/home/ada/.openclaw/gateway.log".to_string(),
            "/home/ada/.openclaw/gateway_error.log".to_string()
        ))
    );
}

#[test]
fn log_paths_hand_the_error_on() {
    assert_eq!(
        gateway_log_paths(Err("Could not find home directory".to_string()), Platform::Unix),
        Err("Could not find home directory".to_string())
    );
    assert_eq!(
        gateway_log_paths(openclaw_home_dir(None, Platform::Windows), Platform::Windows),
        Err("Could not find home directory".to_string())
    );
}

#[test]
fn log_file_for_reading_is_the_output_log() {
    let paths = gateway_log_paths(openclaw_home_dir(Some("/home/ada"), Platform::Unix), Platform::Unix);
    assert_eq!(gateway_log_file("/home/ada", Platform::Unix), paths.unwrap().0);
}

#[test]
fn config_is_looked_for_in_two_places() {
    assert_eq!(
        config_candidates(Some("/home/ada"), Platform::Unix),
        vec![
            "/home/ada/.openclaw/openclaw.json".to_string(),
            "/home/ada/.clawdbot/clawdbot.json".to_string()
        ]
    );
}

#[test]
fn config_without_home_has_no_place() {
    assert_eq!(config_candidates(None, Platform::Unix), Vec::<String>::new());
}

#[test]
fn join_path_agrees_with_the_standard_join() {
    if std::path::MAIN_SEPARATOR != '/' {
        return;
    }
    for dir in ["/home/ada", "/home/ada/", "/", "/home/zoë", "relative/dir", "/a//b/"] {
        for name in [".openclaw", "gateway.log", "gateway_error.log", "openclaw.json"] {
            let expected = std::path::Path::new(dir).join(name);
            assert_eq!(join_path(dir, name, Platform::Unix), expected.to_str().unwrap());
        }
    }
}
