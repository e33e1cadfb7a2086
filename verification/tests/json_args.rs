use addness::codex_job::{format_event_line, parse_json_object};
use addness::execution::parse_json_arg;
use addness::thread::parse_metadata;
use addness::today::parse_chat_metadata;
use addness::diagnosis::{parse_result_text, result_source, ResultSource};

#[test]
fn codex_job_parse_json_object_accepts_valid_object() {
    let map = parse_json_object(r#"{"repo":"a/b"}"#, "--workspace-scope-json").unwrap();
    assert_eq!(map["repo"], "a/b");
}

#[test]
fn codex_job_parse_json_object_rejects_non_object() {
    let err = parse_json_object("[1,2]", "--workspace-scope-json").unwrap_err();
    assert!(err.to_string().contains("--workspace-scope-json"));
}

#[test]
fn format_event_line_extracts_string_payload() {
    let line = format_event_line("stdout", r#"{"seq":1,"type":"stdout","payload":"hello"}"#);
    assert_eq!(line, "[stdout] hello");
}

#[test]
fn format_event_line_stringifies_object_payload() {
    let line = format_event_line("status", r#"{"seq":2,"payload":{"status":"idle"}}"#);
    assert_eq!(line, r#"[status] {"status":"idle"}"#);
}

#[test]
fn format_event_line_falls_back_to_raw_data() {
    let line = format_event_line("caught_up", r#"{"seq":3}"#);
    assert_eq!(line, r#"[caught_up] {"seq":3}"#);
}

#[test]
fn skill_parse_json_object_accepts_valid_object() {
    let map = addness::skill::parse_json_object(r#"{"a":1,"b":"two"}"#, "--examples-json").unwrap();
    assert_eq!(map.len(), 2);
    assert_eq!(map["b"], "two");
}

#[test]
fn skill_parse_json_object_rejects_non_object() {
    let err = addness::skill::parse_json_object("[1,2,3]", "--examples-json").unwrap_err();
    assert!(err.to_string().contains("--examples-json"));
}

#[test]
fn parse_json_object_rejects_invalid_json() {
    let err = addness::skill::parse_json_object("not json", "--examples-json").unwrap_err();
    assert!(err.to_string().contains("--examples-json"));
}

#[test]
fn tool_parse_json_object_accepts_valid_object() {
    let map = addness::tool::parse_json_object(r#"{"url":"https://example.com"}"#, "--executor-config-json")
        .unwrap();
    assert_eq!(map["url"], "https://example.com");
}

#[test]
fn tool_parse_json_object_rejects_non_object() {
    let err = addness::tool::parse_json_object("[1,2,3]", "--executor-config-json").unwrap_err();
    assert!(err.to_string().contains("--executor-config-json"));
}

#[test]
fn parse_json_arg_accepts_valid_json_array() {
    let value = parse_json_arg(r#"[{"op":"complete","goalId":"g1"}]"#, "--changes-json").unwrap();
    assert!(value.is_array());
    assert_eq!(value[0]["op"], "complete");
}

#[test]
fn parse_json_arg_rejects_invalid_json() {
    let err = parse_json_arg("not json", "--changes-json").unwrap_err();
    assert!(err.to_string().contains("--changes-json"));
}

#[test]
fn parse_metadata_accepts_json_object() {
    let value = parse_metadata(r#"{"k":"v"}"#).unwrap();
    let expected: serde_json::Value = serde_json::from_str(r#"{"k":"v"}"#).unwrap();
    assert_eq!(value, expected);
}

#[test]
fn parse_metadata_rejects_invalid_json() {
    assert!(parse_metadata("not json").is_err());
}

#[test]
fn parse_chat_metadata_accepts_valid_json_object() {
    let value = parse_chat_metadata(r#"{"key":"value"}"#).unwrap();
    assert_eq!(value["key"], "value");
}

#[test]
fn parse_chat_metadata_rejects_invalid_json() {
    let err = parse_chat_metadata("not json").unwrap_err();
    assert!(err.to_string().contains("--chat-metadata"));
}

#[test]
fn diagnosis_result_must_be_one_json_object() {
    let value = parse_result_text("{\"typeCode\":\"ENFJ\"}").unwrap();
    assert_eq!(value["typeCode"], "ENFJ");
    assert!(parse_result_text("[1,2,3]").unwrap_err().contains("JSON object"));
    assert!(parse_result_text("not json").unwrap_err().contains("valid JSON"));
    let dash = "-".to_string();
    assert!(matches!(result_source(None, Some(&dash)), Ok(ResultSource::Stdin)));
    assert!(result_source(None, None).is_err());
}
