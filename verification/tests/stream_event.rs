use addness::stream_event::{
    decompose_event_step, goal_chat_event_step, todo_chat_event_step, StreamStep, Style,
};

fn line(text: &str, style: Style, gap: bool) -> StreamStep {
    StreamStep::Line { text: text.to_string(), style, gap }
}

#[test]
fn todo_chat_thread_event_is_a_dimmed_line() {
    assert_eq!(
        todo_chat_event_step("thread", r#"{"threadId":"t-1"}"#),
        line("Thread: t-1", Style::Dimmed, false)
    );
}

#[test]
fn todo_chat_deltas_stream_inline() {
    assert_eq!(
        todo_chat_event_step("text_delta", r#"{"delta":"Hel"}"#),
        StreamStep::Inline { text: "Hel".to_string(), style: Style::Plain }
    );
    assert_eq!(
        todo_chat_event_step("reasoning_delta", r#"{"delta":"hmm"}"#),
        StreamStep::Inline { text: "hmm".to_string(), style: Style::Dimmed }
    );
}

#[test]
fn todo_chat_tool_call_follows_an_empty_line() {
    assert_eq!(
        todo_chat_event_step("tool_call", r#"{"name":"search","arguments":{"q":"x"}}"#),
        line(r#"[tool_call] search {"q":"x"}"#, Style::Plain, true)
    );
}

#[test]
fn todo_chat_quiet_done_and_error_events() {
    assert_eq!(todo_chat_event_step("message_saved", "{}"), StreamStep::Quiet);
    assert_eq!(todo_chat_event_step("done", "{}"), StreamStep::Newline);
    assert_eq!(
        todo_chat_event_step("error", r#"{"message":"boom","code":"E1"}"#),
        StreamStep::Failed { message: "boom (E1)".to_string() }
    );
}

#[test]
fn todo_chat_shows_a_goal_event_as_unknown() {
    assert_eq!(
        todo_chat_event_step("goal", r#"{"id":"g"}"#),
        line(r#"[goal] {"id":"g"}"#, Style::Plain, false)
    );
}

#[test]
fn goal_chat_goal_event_is_bold() {
    assert_eq!(
        goal_chat_event_step("goal", r#"{"id":"g-1","title":"Ship"}"#),
        line("Goal: Ship (g-1)", Style::Bold, false)
    );
    assert_eq!(goal_chat_event_step("done", ""), StreamStep::Newline);
}

#[test]
fn decompose_events_map_to_styles() {
    assert_eq!(
        decompose_event_step("tool-error", r#"{"tool":"t","error":"bad"}"#),
        line("[tool-error] t: bad", Style::Red, false)
    );
    assert_eq!(
        decompose_event_step("reasoning-delta", r#"{"delta":"x"}"#),
        StreamStep::Inline { text: "x".to_string(), style: Style::Plain }
    );
    assert_eq!(decompose_event_step("keep-alive", ""), StreamStep::Quiet);
    assert_eq!(decompose_event_step("finish", ""), StreamStep::Newline);
    assert_eq!(
        decompose_event_step("error", r#"{"error":"nope"}"#),
        StreamStep::Failed { message: "nope".to_string() }
    );
    assert_eq!(
        decompose_event_step("error", "{}"),
        StreamStep::Failed { message: "unknown error".to_string() }
    );
}

#[test]
fn decompose_unknown_event_shows_type_and_data() {
    assert_eq!(
        decompose_event_step("mystery", "raw"),
        line("[mystery] raw", Style::Plain, false)
    );
}
