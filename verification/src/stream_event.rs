//! What one event of a streamed AI response makes the terminal do: the
//! chat streams of `todo-chat` and `goal-chat`, and the `goal decompose`
//! stream (also replayed by `thread`). The caller prints; this decides.

use vstd::prelude::*;
use crate::ai_chat_render::{
    error_message, extract_delta, extract_error_message, format_goal_line, format_thread_line,
    format_tool_call_line, format_tool_result_line, format_usage_line, goal_line, or_empty,
    thread_line, tool_call_line, tool_result_line, usage_line,
};
use crate::goal_decompose_render::{
    decompose_error_message, extract_decompose_error_message, format_objective_line,
    format_plan_created_line, format_plan_step_completed_line, format_plan_step_started_line,
    format_tool_error_line, format_tool_start_line, objective_line, plan_created_line,
    plan_step_completed_line, plan_step_started_line, tool_error_line, tool_start_line,
};
use crate::json::json_str_field;
use crate::text::{owned, str_eq};

verus! {

/// How printed text is styled on the terminal.
#[derive(PartialEq, Eq, Structural, Clone, Copy, Debug)]
pub enum Style {
    Plain,
    Bold,
    Dimmed,
    Red,
    Green,
}

/// What one streamed event makes the terminal do.
#[derive(Debug, PartialEq, Eq)]
pub enum StreamStep {
    /// Print `text` as a line of its own, after an empty line when `gap`
    /// holds.
    Line { text: String, style: Style, gap: bool },
    /// Print `text` where the cursor stands, with no line break, and flush.
    Inline { text: String, style: Style },
    /// End the current line.
    Newline,
    /// Print nothing.
    Quiet,
    /// The stream reported an error; the command fails with `message` once
    /// the stream has ended.
    Failed { message: String },
}

/// A [`StreamStep`] with its texts as character sequences.
pub enum StepModel {
    Line { text: Seq<char>, style: Style, gap: bool },
    Inline { text: Seq<char>, style: Style },
    Newline,
    Quiet,
    Failed { message: Seq<char> },
}

impl View for StreamStep {
    type V = StepModel;

    open spec fn view(&self) -> StepModel {
        match self {
            StreamStep::Line { text, style, gap } => StepModel::Line {
                text: text@,
                style: *style,
                gap: *gap,
            },
            StreamStep::Inline { text, style } => StepModel::Inline { text: text@, style: *style },
            StreamStep::Newline => StepModel::Newline,
            StreamStep::Quiet => StepModel::Quiet,
            StreamStep::Failed { message } => StepModel::Failed { message: message@ },
        }
    }
}

/// `[<event>] <data>`: how an event of an unknown type is shown.
pub open spec fn unknown_event_line(event_type: Seq<char>, data: Seq<char>) -> Seq<char> {
    "["@ + event_type + "] "@ + data
}

fn unknown_event(event_type: &str, data: &str) -> (r: StreamStep)
    ensures
        r@ == (StepModel::Line {
            text: unknown_event_line(event_type@, data@),
            style: Style::Plain,
            gap: false,
        }),
{
    let mut s = owned("[");
    s.append(event_type);
    s.append("] ");
    s.append(data);
    StreamStep::Line { text: s, style: Style::Plain, gap: false }
}

/// The text a delta event streams.
pub open spec fn delta_text(data: Seq<char>) -> Seq<char> {
    or_empty(json_str_field(data, "delta"@))
}

/// What an event of the `todo-chat` stream does.
pub open spec fn todo_chat_step(event_type: Seq<char>, data: Seq<char>) -> StepModel {
    if event_type == "thread"@ {
        StepModel::Line { text: thread_line(data), style: Style::Dimmed, gap: false }
    } else if event_type == "reasoning_delta"@ {
        StepModel::Inline { text: delta_text(data), style: Style::Dimmed }
    } else if event_type == "text_delta"@ {
        StepModel::Inline { text: delta_text(data), style: Style::Plain }
    } else if event_type == "tool_call"@ {
        StepModel::Line { text: tool_call_line(data), style: Style::Plain, gap: true }
    } else if event_type == "tool_result"@ {
        StepModel::Line { text: tool_result_line(data), style: Style::Plain, gap: false }
    } else if event_type == "usage"@ {
        StepModel::Line { text: usage_line(data), style: Style::Dimmed, gap: true }
    } else if event_type == "message_saved"@ {
        StepModel::Quiet
    } else if event_type == "done"@ {
        StepModel::Newline
    } else if event_type == "error"@ {
        StepModel::Failed { message: error_message(data) }
    } else {
        StepModel::Line {
            text: unknown_event_line(event_type, data),
            style: Style::Plain,
            gap: false,
        }
    }
}

/// What an event of the `goal-chat` stream does: a `goal` event shows the
/// goal in bold, the others as in `todo-chat`.
pub open spec fn goal_chat_step(event_type: Seq<char>, data: Seq<char>) -> StepModel {
    if event_type == "goal"@ {
        StepModel::Line { text: goal_line(data), style: Style::Bold, gap: false }
    } else {
        todo_chat_step(event_type, data)
    }
}

/// What an event of the `goal decompose` stream does.
pub open spec fn decompose_step(event_type: Seq<char>, data: Seq<char>) -> StepModel {
    if event_type == "text-delta"@ || event_type == "reasoning-delta"@ {
        StepModel::Inline { text: delta_text(data), style: Style::Plain }
    } else if event_type == "tool-start"@ {
        StepModel::Line { text: tool_start_line(data), style: Style::Plain, gap: true }
    } else if event_type == "tool-result"@ {
        StepModel::Line {
            text: crate::goal_decompose_render::tool_result_line(data),
            style: Style::Plain,
            gap: false,
        }
    } else if event_type == "tool-error"@ {
        StepModel::Line { text: tool_error_line(data), style: Style::Red, gap: false }
    } else if event_type == "plan-created"@ {
        StepModel::Line { text: plan_created_line(data), style: Style::Bold, gap: false }
    } else if event_type == "plan-step-started"@ {
        StepModel::Line { text: plan_step_started_line(data), style: Style::Plain, gap: false }
    } else if event_type == "plan-step-completed"@ {
        StepModel::Line { text: plan_step_completed_line(data), style: Style::Plain, gap: false }
    } else if event_type == "objective-active"@ {
        StepModel::Line {
            text: objective_line(event_type, data),
            style: Style::Dimmed,
            gap: false,
        }
    } else if event_type == "objective-completed"@ {
        StepModel::Line {
            text: objective_line(event_type, data),
            style: Style::Green,
            gap: false,
        }
    } else if event_type == "keep-alive"@ {
        StepModel::Quiet
    } else if event_type == "finish"@ {
        StepModel::Newline
    } else if event_type == "error"@ {
        StepModel::Failed { message: decompose_error_message(data) }
    } else {
        StepModel::Line {
            text: unknown_event_line(event_type, data),
            style: Style::Plain,
            gap: false,
        }
    }
}

pub fn todo_chat_event_step(event_type: &str, data: &str) -> (r: StreamStep)
    ensures
        r@ == todo_chat_step(event_type@, data@),
{
    if str_eq(event_type, "thread") {
        StreamStep::Line { text: format_thread_line(data), style: Style::Dimmed, gap: false }
    } else if str_eq(event_type, "reasoning_delta") {
        StreamStep::Inline { text: extract_delta(data), style: Style::Dimmed }
    } else if str_eq(event_type, "text_delta") {
        StreamStep::Inline { text: extract_delta(data), style: Style::Plain }
    } else if str_eq(event_type, "tool_call") {
        StreamStep::Line { text: format_tool_call_line(data), style: Style::Plain, gap: true }
    } else if str_eq(event_type, "tool_result") {
        StreamStep::Line { text: format_tool_result_line(data), style: Style::Plain, gap: false }
    } else if str_eq(event_type, "usage") {
        StreamStep::Line { text: format_usage_line(data), style: Style::Dimmed, gap: true }
    } else if str_eq(event_type, "message_saved") {
        StreamStep::Quiet
    } else if str_eq(event_type, "done") {
        StreamStep::Newline
    } else if str_eq(event_type, "error") {
        StreamStep::Failed { message: extract_error_message(data) }
    } else {
        unknown_event(event_type, data)
    }
}

pub fn goal_chat_event_step(event_type: &str, data: &str) -> (r: StreamStep)
    ensures
        r@ == goal_chat_step(event_type@, data@),
{
    if str_eq(event_type, "goal") {
        StreamStep::Line { text: format_goal_line(data), style: Style::Bold, gap: false }
    } else {
        todo_chat_event_step(event_type, data)
    }
}

pub fn decompose_event_step(event_type: &str, data: &str) -> (r: StreamStep)
    ensures
        r@ == decompose_step(event_type@, data@),
{
    if str_eq(event_type, "text-delta") || str_eq(event_type, "reasoning-delta") {
        StreamStep::Inline { text: extract_delta(data), style: Style::Plain }
    } else if str_eq(event_type, "tool-start") {
        StreamStep::Line { text: format_tool_start_line(data), style: Style::Plain, gap: true }
    } else if str_eq(event_type, "tool-result") {
        StreamStep::Line {
            text: crate::goal_decompose_render::format_tool_result_line(data),
            style: Style::Plain,
            gap: false,
        }
    } else if str_eq(event_type, "tool-error") {
        StreamStep::Line { text: format_tool_error_line(data), style: Style::Red, gap: false }
    } else if str_eq(event_type, "plan-created") {
        StreamStep::Line { text: format_plan_created_line(data), style: Style::Bold, gap: false }
    } else if str_eq(event_type, "plan-step-started") {
        StreamStep::Line {
            text: format_plan_step_started_line(data),
            style: Style::Plain,
            gap: false,
        }
    } else if str_eq(event_type, "plan-step-completed") {
        StreamStep::Line {
            text: format_plan_step_completed_line(data),
            style: Style::Plain,
            gap: false,
        }
    } else if str_eq(event_type, "objective-active") {
        StreamStep::Line {
            text: format_objective_line(event_type, data),
            style: Style::Dimmed,
            gap: false,
        }
    } else if str_eq(event_type, "objective-completed") {
        StreamStep::Line {
            text: format_objective_line(event_type, data),
            style: Style::Green,
            gap: false,
        }
    } else if str_eq(event_type, "keep-alive") {
        StreamStep::Quiet
    } else if str_eq(event_type, "finish") {
        StreamStep::Newline
    } else if str_eq(event_type, "error") {
        StreamStep::Failed { message: extract_decompose_error_message(data) }
    } else {
        unknown_event(event_type, data)
    }
}

/// In the `goal decompose` stream the answer text streams inline: a
/// `text-delta` event prints its delta where the cursor stands, exactly as a
/// `reasoning-delta` event does, and no other event prints inline. Only a
/// `keep-alive` event prints nothing, only `finish` ends the line and only
/// `error` fails the command.
pub proof fn decompose_deltas_stream_inline(event_type: Seq<char>, data: Seq<char>)
    ensures
        decompose_step("text-delta"@, data) == (StepModel::Inline {
            text: delta_text(data),
            style: Style::Plain,
        }),
        decompose_step("reasoning-delta"@, data) == decompose_step("text-delta"@, data),
        decompose_step(event_type, data) is Inline <==> (event_type == "text-delta"@ || event_type
            == "reasoning-delta"@),
        decompose_step(event_type, data) is Quiet <==> event_type == "keep-alive"@,
        decompose_step(event_type, data) is Newline <==> event_type == "finish"@,
        decompose_step(event_type, data) is Failed <==> event_type == "error"@,
{
    reveal_strlit("text-delta");
    reveal_strlit("reasoning-delta");
    reveal_strlit("tool-start");
    reveal_strlit("tool-result");
    reveal_strlit("tool-error");
    reveal_strlit("plan-created");
    reveal_strlit("plan-step-started");
    reveal_strlit("plan-step-completed");
    reveal_strlit("objective-active");
    reveal_strlit("objective-completed");
    reveal_strlit("keep-alive");
    reveal_strlit("finish");
    reveal_strlit("error");
    assert("text-delta"@[0] != "reasoning-delta"@[0]);
    assert("text-delta"@[1] != "tool-start"@[1]);
    assert("text-delta"@[1] != "tool-result"@[1]);
    assert("text-delta"@[1] != "tool-error"@[1]);
    assert("text-delta"@[0] != "plan-created"@[0]);
    assert("text-delta"@[0] != "plan-step-started"@[0]);
    assert("text-delta"@[0] != "plan-step-completed"@[0]);
    assert("text-delta"@[0] != "objective-active"@[0]);
    assert("text-delta"@[0] != "objective-completed"@[0]);
    assert("text-delta"@[0] != "keep-alive"@[0]);
    assert("text-delta"@[0] != "finish"@[0]);
    assert("text-delta"@[0] != "error"@[0]);
    assert("reasoning-delta"@[0] != "tool-start"@[0]);
    assert("reasoning-delta"@[0] != "tool-result"@[0]);
    assert("reasoning-delta"@[0] != "tool-error"@[0]);
    assert("reasoning-delta"@[0] != "plan-created"@[0]);
    assert("reasoning-delta"@[0] != "plan-step-started"@[0]);
    assert("reasoning-delta"@[0] != "plan-step-completed"@[0]);
    assert("reasoning-delta"@[0] != "objective-active"@[0]);
    assert("reasoning-delta"@[0] != "objective-completed"@[0]);
    assert("reasoning-delta"@[0] != "keep-alive"@[0]);
    assert("reasoning-delta"@[0] != "finish"@[0]);
    assert("reasoning-delta"@[0] != "error"@[0]);
    assert("tool-start"@[5] != "tool-result"@[5]);
    assert("tool-start"@[5] != "tool-error"@[5]);
    assert("tool-start"@[0] != "plan-created"@[0]);
    assert("tool-start"@[0] != "plan-step-started"@[0]);
    assert("tool-start"@[0] != "plan-step-completed"@[0]);
    assert("tool-start"@[0] != "objective-active"@[0]);
    assert("tool-start"@[0] != "objective-completed"@[0]);
    assert("tool-start"@[0] != "keep-alive"@[0]);
    assert("tool-start"@[0] != "finish"@[0]);
    assert("tool-start"@[0] != "error"@[0]);
    assert("tool-result"@[5] != "tool-error"@[5]);
    assert("tool-result"@[0] != "plan-created"@[0]);
    assert("tool-result"@[0] != "plan-step-started"@[0]);
    assert("tool-result"@[0] != "plan-step-completed"@[0]);
    assert("tool-result"@[0] != "objective-active"@[0]);
    assert("tool-result"@[0] != "objective-completed"@[0]);
    assert("tool-result"@[0] != "keep-alive"@[0]);
    assert("tool-result"@[0] != "finish"@[0]);
    assert("tool-result"@[0] != "error"@[0]);
    assert("tool-error"@[0] != "plan-created"@[0]);
    assert("tool-error"@[0] != "plan-step-started"@[0]);
    assert("tool-error"@[0] != "plan-step-completed"@[0]);
    assert("tool-error"@[0] != "objective-active"@[0]);
    assert("tool-error"@[0] != "objective-completed"@[0]);
    assert("tool-error"@[0] != "keep-alive"@[0]);
    assert("tool-error"@[0] != "finish"@[0]);
    assert("tool-error"@[0] != "error"@[0]);
    assert("plan-created"@[5] != "plan-step-started"@[5]);
    assert("plan-created"@[5] != "plan-step-completed"@[5]);
    assert("plan-created"@[0] != "objective-active"@[0]);
    assert("plan-created"@[0] != "objective-completed"@[0]);
    assert("plan-created"@[0] != "keep-alive"@[0]);
    assert("plan-created"@[0] != "finish"@[0]);
    assert("plan-created"@[0] != "error"@[0]);
    assert("plan-step-started"@[10] != "plan-step-completed"@[10]);
    assert("plan-step-started"@[0] != "objective-active"@[0]);
    assert("plan-step-started"@[0] != "objective-completed"@[0]);
    assert("plan-step-started"@[0] != "keep-alive"@[0]);
    assert("plan-step-started"@[0] != "finish"@[0]);
    assert("plan-step-started"@[0] != "error"@[0]);
    assert("plan-step-completed"@[0] != "objective-active"@[0]);
    assert("plan-step-completed"@[0] != "objective-completed"@[0]);
    assert("plan-step-completed"@[0] != "keep-alive"@[0]);
    assert("plan-step-completed"@[0] != "finish"@[0]);
    assert("plan-step-completed"@[0] != "error"@[0]);
    assert("objective-active"@[10] != "objective-completed"@[10]);
    assert("objective-active"@[0] != "keep-alive"@[0]);
    assert("objective-active"@[0] != "finish"@[0]);
    assert("objective-active"@[0] != "error"@[0]);
    assert("objective-completed"@[0] != "keep-alive"@[0]);
    assert("objective-completed"@[0] != "finish"@[0]);
    assert("objective-completed"@[0] != "error"@[0]);
    assert("keep-alive"@[0] != "finish"@[0]);
    assert("keep-alive"@[0] != "error"@[0]);
    assert("finish"@[0] != "error"@[0]);
}

/// In the `todo chat` stream, and so in the `goal chat` stream, a
/// `tool_result` event prints the tool's result as a plain line of its own;
/// the only event that prints nothing is `message_saved`, only the two delta
/// events print inline, only `done` ends the line and only `error` fails the
/// command.
pub proof fn chat_tool_results_are_printed(event_type: Seq<char>, data: Seq<char>)
    ensures
        todo_chat_step("tool_result"@, data) == (StepModel::Line {
            text: tool_result_line(data),
            style: Style::Plain,
            gap: false,
        }),
        goal_chat_step("tool_result"@, data) == todo_chat_step("tool_result"@, data),
        todo_chat_step(event_type, data) is Quiet <==> event_type == "message_saved"@,
        goal_chat_step(event_type, data) is Quiet <==> event_type == "message_saved"@,
        todo_chat_step(event_type, data) is Inline <==> (event_type == "reasoning_delta"@
            || event_type == "text_delta"@),
        todo_chat_step(event_type, data) is Newline <==> event_type == "done"@,
        todo_chat_step(event_type, data) is Failed <==> event_type == "error"@,
        goal_chat_step(event_type, data) is Failed <==> event_type == "error"@,
{
    reveal_strlit("goal");
    reveal_strlit("thread");
    reveal_strlit("reasoning_delta");
    reveal_strlit("text_delta");
    reveal_strlit("tool_call");
    reveal_strlit("tool_result");
    reveal_strlit("usage");
    reveal_strlit("message_saved");
    reveal_strlit("done");
    reveal_strlit("error");
    assert("goal"@[0] != "thread"@[0]);
    assert("goal"@[0] != "reasoning_delta"@[0]);
    assert("goal"@[0] != "text_delta"@[0]);
    assert("goal"@[0] != "tool_call"@[0]);
    assert("goal"@[0] != "tool_result"@[0]);
    assert("goal"@[0] != "usage"@[0]);
    assert("goal"@[0] != "message_saved"@[0]);
    assert("goal"@[0] != "done"@[0]);
    assert("goal"@[0] != "error"@[0]);
    assert("thread"@[0] != "reasoning_delta"@[0]);
    assert("thread"@[1] != "text_delta"@[1]);
    assert("thread"@[1] != "tool_call"@[1]);
    assert("thread"@[1] != "tool_result"@[1]);
    assert("thread"@[0] != "usage"@[0]);
    assert("thread"@[0] != "message_saved"@[0]);
    assert("thread"@[0] != "done"@[0]);
    assert("thread"@[0] != "error"@[0]);
    assert("reasoning_delta"@[0] != "text_delta"@[0]);
    assert("reasoning_delta"@[0] != "tool_call"@[0]);
    assert("reasoning_delta"@[0] != "tool_result"@[0]);
    assert("reasoning_delta"@[0] != "usage"@[0]);
    assert("reasoning_delta"@[0] != "message_saved"@[0]);
    assert("reasoning_delta"@[0] != "done"@[0]);
    assert("reasoning_delta"@[0] != "error"@[0]);
    assert("text_delta"@[1] != "tool_call"@[1]);
    assert("text_delta"@[1] != "tool_result"@[1]);
    assert("text_delta"@[0] != "usage"@[0]);
    assert("text_delta"@[0] != "message_saved"@[0]);
    assert("text_delta"@[0] != "done"@[0]);
    assert("text_delta"@[0] != "error"@[0]);
    assert("tool_call"@[5] != "tool_result"@[5]);
    assert("tool_call"@[0] != "usage"@[0]);
    assert("tool_call"@[0] != "message_saved"@[0]);
    assert("tool_call"@[0] != "done"@[0]);
    assert("tool_call"@[0] != "error"@[0]);
    assert("tool_result"@[0] != "usage"@[0]);
    assert("tool_result"@[0] != "message_saved"@[0]);
    assert("tool_result"@[0] != "done"@[0]);
    assert("tool_result"@[0] != "error"@[0]);
    assert("usage"@[0] != "message_saved"@[0]);
    assert("usage"@[0] != "done"@[0]);
    assert("usage"@[0] != "error"@[0]);
    assert("message_saved"@[0] != "done"@[0]);
    assert("message_saved"@[0] != "error"@[0]);
    assert("done"@[0] != "error"@[0]);
}

/// How a streamed command ends: with the error the stream reported, under
/// the command's name (`thread chat`, `todo chat`, ...), or successfully.
pub fn chat_stream_result(command: &str, last_error: Option<String>) -> (r: Result<(), String>)
    ensures
        match last_error {
            Some(m) => r matches Err(e) && e@ == command@ + " error: "@ + m@,
            None => r is Ok,
        },
{
    match last_error {
        Some(m) => {
            let mut e = owned(command);
            e.append(" error: ");
            e.append(m.as_str());
            Err(e)
        },
        None => Ok(()),
    }
}

} // verus!
