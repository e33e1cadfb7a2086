use addness::goal_decompose_render::{
    extract_decompose_error_message, format_objective_line, format_plan_created_line,
    format_plan_step_completed_line, format_plan_step_started_line, format_tool_error_line,
    format_tool_result_line, format_tool_start_line,
};

#[test]
fn format_tool_start_line_includes_tool_and_arguments() {
    assert_eq!(
        format_tool_start_line(r#"{"tool":"search","arguments":{"q":"x"}}"#),
        r#"[tool-start] search {"q":"x"}"#
    );
}

#[test]
fn format_tool_result_line_includes_success_and_summary() {
    assert_eq!(
        format_tool_result_line(
            r#"{"tool":"search","result":{},"summary":"3 hits","success":true,"latency_ms":120}"#
        ),
        "[tool-result] search success=true 3 hits"
    );
}

#[test]
fn format_tool_error_line_includes_tool_and_error() {
    assert_eq!(
        format_tool_error_line(r#"{"tool":"search","error":"timeout"}"#),
        "[tool-error] search: timeout"
    );
}

#[test]
fn format_plan_created_line_counts_steps() {
    assert_eq!(
        format_plan_created_line(r#"{"plan_id":"p1","steps":[{"id":"1"},{"id":"2"}]}"#),
        "Plan created: 2 step(s)"
    );
}

#[test]
fn format_plan_step_started_line_reads_description() {
    assert_eq!(
        format_plan_step_started_line(
            r#"{"plan_id":"p1","step_id":"s1","description":"Split into phases"}"#
        ),
        "  -> Split into phases"
    );
}

#[test]
fn format_plan_step_completed_line_includes_result_when_present() {
    assert_eq!(
        format_plan_step_completed_line(
            r#"{"plan_id":"p1","step_id":"s1","result":"3 sub-goals created"}"#
        ),
        "  done: 3 sub-goals created"
    );
}

#[test]
fn format_plan_step_completed_line_falls_back_without_result() {
    assert_eq!(format_plan_step_completed_line(r#"{"plan_id":"p1","step_id":"s1"}"#), "  done");
}

#[test]
fn format_objective_line_reads_structured_nested_data() {
    assert_eq!(
        format_objective_line(
            "objective-active",
            r#"{"type":"objective-active","data":{"objective_id":"o1","tool":"create_objective"},"index":3,"timestamp":"2026-07-16T00:00:00.000Z"}"#
        ),
        "[objective-active] o1 tool=create_objective"
    );
    assert_eq!(
        format_objective_line(
            "objective-completed",
            r#"{"type":"objective-completed","data":{"objective_id":"o1"},"index":4,"timestamp":"2026-07-16T00:00:00.000Z"}"#
        ),
        "[objective-completed] o1"
    );
}

#[test]
fn extract_decompose_error_message_reads_error_field() {
    assert_eq!(
        extract_decompose_error_message(r#"{"type":"error","error":"billing exhausted"}"#),
        "billing exhausted"
    );
}

#[test]
fn extract_decompose_error_message_falls_back_on_invalid_json() {
    assert_eq!(extract_decompose_error_message("not json"), "not json");
}

#[test]
fn plan_created_without_steps_counts_zero() {
    assert_eq!(format_plan_created_line(r#"{"plan_id":"p1"}"#), "Plan created: 0 step(s)");
    assert_eq!(format_objective_line("objective-completed", r#"{"objective_id":"o2"}"#), "[objective-completed] o2");
}
