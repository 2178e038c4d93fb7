use gateway_supervisor::config::{
    gateway_token, read_gateway_token, read_token_from_file, read_token_from_text, JsonValue,
};
use gateway_supervisor::files::FileSnapshot;

fn object(entries: Vec<(&str, JsonValue)>) -> JsonValue {
    JsonValue::Object(entries.into_iter().map(|(k, v)| (k.to_string(), v)).collect())
}

fn text(s: &str) -> JsonValue {
    JsonValue::Text(s.to_string())
}

fn content(s: &str) -> FileSnapshot {
    FileSnapshot::Content { text: s.to_string() }
}

fn config_with(token: JsonValue) -> JsonValue {
    object(vec![(
        "gateway",
        object(vec![("port", JsonValue::Number), ("auth", object(vec![("token", token)]))]),
    )])
}

#[test]
fn get_finds_a_member_by_name() {
    let doc = object(vec![("a", JsonValue::Null), ("b", JsonValue::Bool(true))]);
    assert_eq!(doc.get("a"), Some(&JsonValue::Null));
    assert_eq!(doc.get("b"), Some(&JsonValue::Bool(true)));
    assert_eq!(doc.get("c"), None);
    assert_eq!(doc.get(""), None);
}

#[test]
fn get_of_what_is_no_object() {
    assert_eq!(text("a").get("a"), None);
    assert_eq!(JsonValue::Array(vec![text("a")]).get("a"), None);
    assert_eq!(JsonValue::Null.get("a"), None);
    assert_eq!(JsonValue::Number.get("0"), None);
}

#[test]
fn as_text_reads_strings_only() {
    assert_eq!(text("abc").as_text(), Some("abc"));
    assert_eq!(text("").as_text(), Some(""));
    assert_eq!(JsonValue::Bool(false).as_text(), None);
    assert_eq!(JsonValue::Number.as_text(), None);
    assert_eq!(object(vec![]).as_text(), None);
}

#[test]
fn token_stands_at_gateway_auth_token() {
    assert_eq!(gateway_token(&config_with(text("s3cret"))), Some("s3cret".to_string()));
}

#[test]
fn token_that_is_no_string_is_none() {
    assert_eq!(gateway_token(&config_with(JsonValue::Number)), None);
    assert_eq!(gateway_token(&config_with(JsonValue::Null)), None);
    assert_eq!(gateway_token(&config_with(object(vec![]))), None);
}

#[test]
fn token_with_a_broken_path_is_none() {
    assert_eq!(gateway_token(&object(vec![])), None);
    assert_eq!(gateway_token(&object(vec![("gateway", text("x"))])), None);
    assert_eq!(gateway_token(&object(vec![("gateway", object(vec![("auth", JsonValue::Array(vec![]))]))])), None);
    assert_eq!(gateway_token(&object(vec![("auth", object(vec![("token", text("x"))]))])), None);
    assert_eq!(gateway_token(&text("gateway")), None);
}

#[test]
fn token_is_read_from_json_text() {
    assert_eq!(
        read_token_from_text(r#"{"gateway":{"auth":{"token":"abc/def+ghi"}}}"#),
        Some("abc/def+ghi".to_string())
    );
    assert_eq!(
        read_token_from_text(
            "{\n  \"agents\": [1, 2.5, null],\n  \"gateway\": {\n    \"port\": 18789,\n    \"auth\": { \"mode\": \"token\", \"token\": \"t\\u00e9\\n\" }\n  }\n}\n"
        ),
        Some("té\n".to_string())
    );
}

#[test]
fn token_of_a_repeated_name_is_the_last_one() {
    assert_eq!(
        read_token_from_text(r#"{"gateway":{"auth":{"token":"first","token":"second"}}}"#),
        Some("second".to_string())
    );
}

#[test]
fn token_of_malformed_text_is_none() {
    assert_eq!(read_token_from_text(""), None);
    assert_eq!(read_token_from_text("{"), None);
    assert_eq!(read_token_from_text("not json"), None);
    assert_eq!(read_token_from_text(r#"{"gateway":{"auth":{"token":"abc"}}} trailing"#), None);
    assert_eq!(read_token_from_text("{gateway: {auth: {token: 'abc'}}}"), None);
}

#[test]
fn token_of_json_without_one_is_none() {
    assert_eq!(read_token_from_text("{}"), None);
    assert_eq!(read_token_from_text("[]"), None);
    assert_eq!(read_token_from_text("null"), None);
    assert_eq!(read_token_from_text(r#"{"gateway":{"auth":{"token":42}}}"#), None);
    assert_eq!(read_token_from_text(r#"{"gateway":{"auth":"token"}}"#), None);
    assert_eq!(read_token_from_text(r#"{"gateway":[{"auth":{"token":"abc"}}]}"#), None);
}

#[test]
fn token_from_a_file() {
    assert_eq!(
        read_token_from_file(&content(r#"{"gateway":{"auth":{"token":"abc"}}}"#)),
        Some("abc".to_string())
    );
    assert_eq!(read_token_from_file(&FileSnapshot::Absent), None);
    assert_eq!(
        read_token_from_file(&FileSnapshot::Unreadable { detail: "Permission denied".to_string() }),
        None
    );
}

#[test]
fn only_the_legacy_config_is_populated() {
    let files = vec![FileSnapshot::Absent, content(r#"{"gateway":{"auth":{"token":"old-token"}}}"#)];
    assert_eq!(read_gateway_token(&files), Some("old-token".to_string()));
}

#[test]
fn both_configs_are_absent() {
    assert_eq!(read_gateway_token(&vec![FileSnapshot::Absent, FileSnapshot::Absent]), None);
    assert_eq!(read_gateway_token(&vec![]), None);
}

#[test]
fn a_malformed_primary_config_gives_none() {
    let files = vec![content("{ this is not json"), content(r#"{"gateway":{"auth":{"token":"old"}}}"#)];
    assert_eq!(read_gateway_token(&files), None);
    let files = vec![content("{ this is not json"), FileSnapshot::Absent];
    assert_eq!(read_gateway_token(&files), None);
}

#[test]
fn the_primary_config_wins_over_the_legacy_one() {
    let files = vec![
        content(r#"{"gateway":{"auth":{"token":"new"}}}"#),
        content(r#"{"gateway":{"auth":{"token":"old"}}}"#),
    ];
    assert_eq!(read_gateway_token(&files), Some("new".to_string()));
}

#[test]
fn an_unreadable_primary_config_gives_none() {
    let files = vec![
        FileSnapshot::Unreadable { detail: "Is a directory (os error 21)".to_string() },
        content(r#"{"gateway":{"auth":{"token":"old"}}}"#),
    ];
    assert_eq!(read_gateway_token(&files), None);
}

#[test]
fn a_primary_config_without_token_gives_none() {
    let files = vec![content("{}"), content(r#"{"gateway":{"auth":{"token":"old"}}}"#)];
    assert_eq!(read_gateway_token(&files), None);
}
