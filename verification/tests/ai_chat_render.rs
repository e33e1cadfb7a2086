use addness::ai_chat_render::{
    extract_delta, extract_error_message, format_goal_line, format_thread_line,
    format_tool_call_line, format_tool_result_line, format_usage_line, render_delta,
};

#[test]
fn ai_chat_render_format_thread_line_reads_thread_id() {
    assert_eq!(format_thread_line(r#"{"threadId":"t-1"}"#), "Thread: t-1");
}

#[test]
fn ai_chat_render_extract_delta_reads_delta_field() {
    assert_eq!(extract_delta(r#"{"delta":"hello"}"#), "hello");
}

#[test]
fn ai_chat_render_extract_delta_defaults_to_empty_when_missing() {
    assert_eq!(extract_delta(r#"{"round":1}"#), "");
}

#[test]
fn ai_chat_render_format_tool_call_line_includes_name_and_arguments() {
    assert_eq!(
        format_tool_call_line(r#"{"name":"search","arguments":{"q":"x"}}"#),
        r#"[tool_call] search {"q":"x"}"#
    );
}

#[test]
fn ai_chat_render_format_tool_result_line_includes_ok_and_data() {
    assert_eq!(
        format_tool_result_line(r#"{"name":"search","ok":true,"data":{"count":3}}"#),
        r#"[tool_result] search ok=true {"count":3}"#
    );
}

#[test]
fn ai_chat_render_format_usage_line_includes_token_counts() {
    assert_eq!(
        format_usage_line(
            r#"{"inputTokens":10,"cachedInputTokens":2,"outputTokens":5,"totalTokens":15,"provider":"acme","model":"m1"}"#
        ),
        "usage: input=10 cached=2 output=5 total=15 (acme/m1)"
    );
}

#[test]
fn ai_chat_render_extract_error_message_includes_code_when_present() {
    assert_eq!(
        extract_error_message(r#"{"message":"out of tokens","code":"token_exhausted"}"#),
        "out of tokens (token_exhausted)"
    );
}

#[test]
fn ai_chat_render_extract_error_message_omits_code_when_absent() {
    assert_eq!(extract_error_message(r#"{"message":"boom"}"#), "boom");
}

#[test]
fn format_goal_line_reads_id_and_title() {
    assert_eq!(
        format_goal_line(r#"{"id":"g-1","title":"Ship the feature"}"#),
        "Goal: Ship the feature (g-1)"
    );
}

#[test]
fn format_goal_line_falls_back_on_invalid_json() {
    assert_eq!(format_goal_line("not json"), "[goal] not json");
}

#[test]
fn goal_chat_format_thread_line_reads_thread_id() {
    assert_eq!(format_thread_line(r#"{"threadId":"t-1"}"#), "Thread: t-1");
}

#[test]
fn goal_chat_extract_delta_reads_delta_field() {
    assert_eq!(extract_delta(r#"{"delta":"hello"}"#), "hello");
}

#[test]
fn goal_chat_extract_delta_defaults_to_empty_when_missing() {
    assert_eq!(extract_delta(r#"{"round":1}"#), "");
}

#[test]
fn goal_chat_format_tool_call_line_includes_name_and_arguments() {
    assert_eq!(
        format_tool_call_line(r#"{"name":"search","arguments":{"q":"x"}}"#),
        r#"[tool_call] search {"q":"x"}"#
    );
}

#[test]
fn goal_chat_format_tool_result_line_includes_ok_and_data() {
    assert_eq!(
        format_tool_result_line(r#"{"name":"search","ok":true,"data":{"count":3}}"#),
        r#"[tool_result] search ok=true {"count":3}"#
    );
}

#[test]
fn goal_chat_format_usage_line_includes_token_counts() {
    assert_eq!(
        format_usage_line(
            r#"{"inputTokens":10,"cachedInputTokens":2,"outputTokens":5,"totalTokens":15,"provider":"acme","model":"m1"}"#
        ),
        "usage: input=10 cached=2 output=5 total=15 (acme/m1)"
    );
}

#[test]
fn goal_chat_extract_error_message_includes_code_when_present() {
    assert_eq!(
        extract_error_message(r#"{"message":"out of tokens","code":"token_exhausted"}"#),
        "out of tokens (token_exhausted)"
    );
}

#[test]
fn goal_chat_extract_error_message_omits_code_when_absent() {
    assert_eq!(extract_error_message(r#"{"message":"boom"}"#), "boom");
}

#[test]
fn malformed_events_fall_back_to_raw_data() {
    assert_eq!(format_thread_line("oops"), "[thread] oops");
    assert_eq!(format_tool_call_line("oops"), "[tool_call] oops");
    assert_eq!(format_tool_result_line("{}"), "[tool_result]  ok=false null");
    assert_eq!(format_usage_line("{}"), "usage: input=0 cached=0 output=0 total=0 (/)");
    assert_eq!(extract_error_message("oops"), "oops");
    assert_eq!(extract_error_message("{}"), "unknown error");
    assert_eq!(render_delta(r#"{"delta":"hi"}"#, false), "hi");
}

#[test]
fn render_delta_dims_reasoning_or_leaves_it_plain() {
    let r = addness::ai_chat_render::render_delta(r#"{"delta":"hmm"}"#, true);
    assert!(r == "hmm" || r == "\u{1b}[2mhmm\u{1b}[0m");
    assert_eq!(addness::ai_chat_render::render_delta(r#"{"delta":"hmm"}"#, false), "hmm");
}

#[test]
fn ai_chat_render_json_event_line_wraps_event_and_data() {
    assert_eq!(
        addness::ai_chat_render::json_event_line("text_delta", r#"{"delta":"hi"}"#),
        r#"{"data":{"delta":"hi"},"event":"text_delta"}"#
    );
}

#[test]
fn goal_chat_json_event_line_wraps_event_and_data() {
    assert_eq!(
        addness::ai_chat_render::json_event_line("text_delta", r#"{"delta":"hi"}"#),
        r#"{"data":{"delta":"hi"},"event":"text_delta"}"#
    );
}

#[test]
fn json_event_line_writes_null_for_data_that_is_not_json() {
    assert_eq!(
        addness::ai_chat_render::json_event_line("done", "not json"),
        r#"{"data":null,"event":"done"}"#
    );
}
