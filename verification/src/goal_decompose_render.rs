//! Lines for the events of `goal decompose`, whose payloads name the tool
//! under `tool` and nest structured data under `data`.

use vstd::prelude::*;
use crate::ai_chat_render::{bool_word, field_or_null, field_text_or_null, or_empty};
use crate::json::{
    array_len, bool_field, field_text, is_json, json_array_len, json_bool_field, json_field_text,
    json_str_field, json_valid, str_field,
};
use crate::text::{owned, str_eq, u64_text, dec};

verus! {

fn text_or_empty(o: Option<String>) -> (r: String)
    ensures
        r@ == or_empty(match o {
            Some(t) => Some(t@),
            None => None,
        }),
{
    match o {
        Some(t) => t,
        None => {
            let s = String::new();
            assert(s@ =~= Seq::<char>::empty());
            s
        },
    }
}

/// `[tool-start] <tool> <arguments>`.
pub open spec fn tool_start_line(data: Seq<char>) -> Seq<char> {
    if json_valid(data) {
        "[tool-start] "@ + or_empty(json_str_field(data, "tool"@)) + " "@ + field_or_null(
            data,
            "arguments"@,
        )
    } else {
        "[tool-start] "@ + data
    }
}

pub fn format_tool_start_line(data: &str) -> (r: String)
    ensures
        r@ == tool_start_line(data@),
{
    if !is_json(data) {
        let mut s = owned("[tool-start] ");
        s.append(data);
        return s;
    }
    let tool = text_or_empty(str_field(data, "tool"));
    let args = field_text_or_null(data, "arguments");
    let mut s = owned("[tool-start] ");
    s.append(tool.as_str());
    s.append(" ");
    s.append(args.as_str());
    s
}

/// `[tool-result] <tool> success=<success> <summary>`.
pub open spec fn tool_result_line(data: Seq<char>) -> Seq<char> {
    if json_valid(data) {
        "[tool-result] "@ + or_empty(json_str_field(data, "tool"@)) + " success="@ + bool_word(
            json_bool_field(data, "success"@) == Some(true),
        ) + " "@ + or_empty(json_str_field(data, "summary"@))
    } else {
        "[tool-result] "@ + data
    }
}

pub fn format_tool_result_line(data: &str) -> (r: String)
    ensures
        r@ == tool_result_line(data@),
{
    if !is_json(data) {
        let mut s = owned("[tool-result] ");
        s.append(data);
        return s;
    }
    let tool = text_or_empty(str_field(data, "tool"));
    let success = match bool_field(data, "success") {
        Some(b) => b,
        None => false,
    };
    let summary = text_or_empty(str_field(data, "summary"));
    let mut s = owned("[tool-result] ");
    s.append(tool.as_str());
    s.append(" success=");
    s.append(if success { "true" } else { "false" });
    s.append(" ");
    s.append(summary.as_str());
    s
}

/// `[tool-error] <tool>: <error>`.
pub open spec fn tool_error_line(data: Seq<char>) -> Seq<char> {
    if json_valid(data) {
        "[tool-error] "@ + or_empty(json_str_field(data, "tool"@)) + ": "@ + or_empty(
            json_str_field(data, "error"@),
        )
    } else {
        "[tool-error] "@ + data
    }
}

pub fn format_tool_error_line(data: &str) -> (r: String)
    ensures
        r@ == tool_error_line(data@),
{
    if !is_json(data) {
        let mut s = owned("[tool-error] ");
        s.append(data);
        return s;
    }
    let tool = text_or_empty(str_field(data, "tool"));
    let error = text_or_empty(str_field(data, "error"));
    let mut s = owned("[tool-error] ");
    s.append(tool.as_str());
    s.append(": ");
    s.append(error.as_str());
    s
}

/// `Plan created: <n> step(s)`, counting the `steps` array (0 without one).
pub open spec fn plan_created_line(data: Seq<char>) -> Seq<char> {
    if json_valid(data) {
        "Plan created: "@ + dec(
            match json_array_len(data, "steps"@) {
                Some(n) => n,
                None => 0,
            },
        ) + " step(s)"@
    } else {
        "[plan-created] "@ + data
    }
}

pub fn format_plan_created_line(data: &str) -> (r: String)
    ensures
        r@ == plan_created_line(data@),
{
    if !is_json(data) {
        let mut s = owned("[plan-created] ");
        s.append(data);
        return s;
    }
    let n: usize = match array_len(data, "steps") {
        Some(n) => n,
        None => 0,
    };
    let count = u64_text(n as u64);
    let mut s = owned("Plan created: ");
    s.append(count.as_str());
    s.append(" step(s)");
    s
}

/// `  -> <description>`.
pub open spec fn plan_step_started_line(data: Seq<char>) -> Seq<char> {
    if json_valid(data) {
        "  -> "@ + or_empty(json_str_field(data, "description"@))
    } else {
        "[plan-step-started] "@ + data
    }
}

pub fn format_plan_step_started_line(data: &str) -> (r: String)
    ensures
        r@ == plan_step_started_line(data@),
{
    if !is_json(data) {
        let mut s = owned("[plan-step-started] ");
        s.append(data);
        return s;
    }
    let d = text_or_empty(str_field(data, "description"));
    let mut s = owned("  -> ");
    s.append(d.as_str());
    s
}

/// `  done: <result>` for a non-empty result, else `  done`.
pub open spec fn plan_step_completed_line(data: Seq<char>) -> Seq<char> {
    if json_valid(data) {
        match json_str_field(data, "result"@) {
            Some(r) => if r.len() > 0 {
                "  done: "@ + r
            } else {
                "  done"@
            },
            None => "  done"@,
        }
    } else {
        "[plan-step-completed] "@ + data
    }
}

pub fn format_plan_step_completed_line(data: &str) -> (r: String)
    ensures
        r@ == plan_step_completed_line(data@),
{
    if !is_json(data) {
        let mut s = owned("[plan-step-completed] ");
        s.append(data);
        return s;
    }
    match str_field(data, "result") {
        Some(r) => {
            if crate::text::char_count(r.as_str()) > 0 {
                let mut s = owned("  done: ");
                s.append(r.as_str());
                s
            } else {
                owned("  done")
            }
        },
        None => owned("  done"),
    }
}

/// The object a structured event describes: the text of its `data` field
/// when it has one, else the event itself.
pub open spec fn structured_inner(data: Seq<char>) -> Seq<char> {
    match json_field_text(data, "data"@) {
        Some(t) => t,
        None => data,
    }
}

/// `[objective-active] <objective_id> tool=<tool>` or
/// `[objective-completed] <objective_id>`.
pub open spec fn objective_line(event_type: Seq<char>, data: Seq<char>) -> Seq<char> {
    if json_valid(data) {
        let inner = structured_inner(data);
        let id = or_empty(json_str_field(inner, "objective_id"@));
        if event_type == "objective-active"@ {
            "[objective-active] "@ + id + " tool="@ + or_empty(json_str_field(inner, "tool"@))
        } else {
            "[objective-completed] "@ + id
        }
    } else {
        "["@ + event_type + "] "@ + data
    }
}

pub fn format_objective_line(event_type: &str, data: &str) -> (r: String)
    ensures
        r@ == objective_line(event_type@, data@),
{
    if !is_json(data) {
        let mut s = owned("[");
        s.append(event_type);
        s.append("] ");
        s.append(data);
        return s;
    }
    let inner = match field_text(data, "data") {
        Some(t) => t,
        None => owned(data),
    };
    let id = text_or_empty(str_field(inner.as_str(), "objective_id"));
    if str_eq(event_type, "objective-active") {
        let tool = text_or_empty(str_field(inner.as_str(), "tool"));
        let mut s = owned("[objective-active] ");
        s.append(id.as_str());
        s.append(" tool=");
        s.append(tool.as_str());
        s
    } else {
        let mut s = owned("[objective-completed] ");
        s.append(id.as_str());
        s
    }
}

/// The message of a decompose `error` event: its `error` string, `unknown
/// error` without one, the raw data when it is not JSON.
pub open spec fn decompose_error_message(data: Seq<char>) -> Seq<char> {
    if json_valid(data) {
        match json_str_field(data, "error"@) {
            Some(e) => e,
            None => "unknown error"@,
        }
    } else {
        data
    }
}

pub fn extract_decompose_error_message(data: &str) -> (r: String)
    ensures
        r@ == decompose_error_message(data@),
{
    if !is_json(data) {
        return owned(data);
    }
    match str_field(data, "error") {
        Some(e) => e,
        None => owned("unknown error"),
    }
}

} // verus!
