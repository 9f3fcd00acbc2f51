use gateway::auth::AuthPayload;
use gateway::auth::payload_header_value;
use gateway::json::json_quoted;

#[test]
fn plain_text_is_just_quoted() {
    assert_eq!(json_quoted("hello"), "\"hello\"");
    assert_eq!(json_quoted(""), "\"\"");
}

#[test]
fn quotes_backslashes_and_named_controls_are_escaped() {
    let input = "a\"b\\c\nd\te\rf\u{8}g\u{c}h";
    assert_eq!(json_quoted(input), serde_json::to_string(input).unwrap());
    assert_eq!(json_quoted(input), "\"a\\\"b\\\\c\\nd\\te\\rf\\bg\\fh\"");
}

#[test]
fn other_control_characters_become_u_escapes() {
    assert_eq!(json_quoted("\u{1}"), "\"\\u0001\"");
    assert_eq!(json_quoted("\u{1f}"), "\"\\u001f\"");
    assert_eq!(json_quoted("\u{0}"), serde_json::to_string("\u{0}").unwrap());
}

#[test]
fn non_ascii_text_passes_through() {
    let input = "héllo wörld ☂";
    assert_eq!(json_quoted(input), serde_json::to_string(input).unwrap());
}

#[test]
fn empty_permission_map_serializes_to_empty_object() {
    let payload = AuthPayload {
        session_id: "s".to_string(),
        user_id: "u".to_string(),
        user_state: "new".to_string(),
        permissions: Vec::new(),
    };
    assert_eq!(
        payload_header_value(&payload),
        "{\"session_id\":\"s\",\"user_id\":\"u\",\"user_state\":\"new\",\"permissions\":{}}"
    );
}

#[test]
fn permission_list_may_be_empty() {
    let payload = AuthPayload {
        session_id: "s".to_string(),
        user_id: "u".to_string(),
        user_state: "new".to_string(),
        permissions: vec![("viewer".to_string(), Vec::new())],
    };
    let value = payload_header_value(&payload);
    assert_eq!(
        value,
        "{\"session_id\":\"s\",\"user_id\":\"u\",\"user_state\":\"new\",\
         \"permissions\":{\"viewer\":[]}}"
    );
    let parsed: serde_json::Value = serde_json::from_str(&value).unwrap();
    assert_eq!(parsed["permissions"]["viewer"], serde_json::Value::Array(Vec::new()));
}

#[test]
fn payload_fields_with_special_characters_round_trip() {
    let payload = AuthPayload {
        session_id: "id\"quote".to_string(),
        user_id: "line\nbreak".to_string(),
        user_state: "tab\there".to_string(),
        permissions: vec![("rôle\\x".to_string(), vec!["p\u{1}q".to_string()])],
    };
    let value = payload_header_value(&payload);
    let parsed: serde_json::Value = serde_json::from_str(&value).unwrap();
    assert_eq!(parsed["session_id"], serde_json::Value::String("id\"quote".to_string()));
    assert_eq!(parsed["user_id"], serde_json::Value::String("line\nbreak".to_string()));
    assert_eq!(parsed["user_state"], serde_json::Value::String("tab\there".to_string()));
    assert_eq!(
        parsed["permissions"]["rôle\\x"][0],
        serde_json::Value::String("p\u{1}q".to_string())
    );
}
