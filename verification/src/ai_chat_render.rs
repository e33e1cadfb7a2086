//! Lines for the events of the AI chat streams (`goal-chat`, `todo-chat`):
//! `thread`, `text_delta`, `tool_call`, `tool_result`, `usage`, `error`.

use vstd::prelude::*;
use crate::json::{
    bool_field, field_text, i64_field, is_json, json_bool_field, json_field_text,
    json_i64_field, json_str_field, json_valid, str_field,
};
use crate::text::{has_infix, i64_text, int_text, owned};

verus! {

/// The text of an optional field, empty when absent.
pub open spec fn or_empty(o: Option<Seq<char>>) -> Seq<char> {
    match o {
        Some(t) => t,
        None => Seq::empty(),
    }
}

/// `true` or `false`.
pub open spec fn bool_word(b: bool) -> Seq<char> {
    if b {
        "true"@
    } else {
        "false"@
    }
}

fn text_or_empty(o: Option<String>) -> (r: String)
    ensures
        r@ == or_empty(match o {
            Some(t) => Some(t@),
            None => None,
        }),
{
    match o {
        Some(t) => t,
        None => {
            let s = String::new();
            assert(s@ =~= Seq::<char>::empty());
            s
        },
    }
}

/// The line `serde_json::json!({"event": event_type, "data": value})
/// .to_string()` writes, where `value` is what the data text parses to.
pub uninterp spec fn json_event_text(event_type: Seq<char>, data: Seq<char>) -> Seq<char>;

/// The same line with a `null` data value.
pub uninterp spec fn json_null_event_text(event_type: Seq<char>) -> Seq<char>;

/// The object `{"event": event_type, "data": from_str(data)}` as compact
/// JSON text (what `json!` builds, written out). Trusted: named `json_event_text` of the event type and the data text.
#[verifier::external_body]
fn event_line_with_data(event_type: &str, data: &str) -> (r: String)
    requires
        json_valid(data@),
    ensures
        r@ == json_event_text(event_type@, data@),
{
    let parsed: serde_json::Value = serde_json::from_str(data).unwrap_or(serde_json::Value::Null);
    let mut m = serde_json::Map::new();
    m.insert("event".to_string(), serde_json::Value::String(event_type.to_string()));
    m.insert("data".to_string(), parsed);
    serde_json::Value::Object(m).to_string()
}

/// The object `{"event": event_type, "data": null}` as compact JSON text.
/// Trusted:
/// named `json_null_event_text` of the event type.
#[verifier::external_body]
fn event_line_null(event_type: &str) -> (r: String)
    ensures
        r@ == json_null_event_text(event_type@),
{
    let mut m = serde_json::Map::new();
    m.insert("event".to_string(), serde_json::Value::String(event_type.to_string()));
    m.insert("data".to_string(), serde_json::Value::Null);
    serde_json::Value::Object(m).to_string()
}

/// An SSE event as one JSON line, `{"data":...,"event":...}`: the payload
/// parsed as JSON, or `null` where it is not JSON.
pub fn json_event_line(event_type: &str, data: &str) -> (r: String)
    ensures
        json_valid(data@) ==> r@ == json_event_text(event_type@, data@),
        !json_valid(data@) ==> r@ == json_null_event_text(event_type@),
{
    if is_json(data) {
        event_line_with_data(event_type, data)
    } else {
        event_line_null(event_type)
    }
}

/// `Thread: <threadId>`, or `[thread] <data>` for data that is not JSON.
pub open spec fn thread_line(data: Seq<char>) -> Seq<char> {
    if json_valid(data) {
        "Thread: "@ + or_empty(json_str_field(data, "threadId"@))
    } else {
        "[thread] "@ + data
    }
}

pub fn format_thread_line(data: &str) -> (r: String)
    ensures
        r@ == thread_line(data@),
{
    if !is_json(data) {
        let mut s = owned("[thread] ");
        s.append(data);
        return s;
    }
    let id = text_or_empty(str_field(data, "threadId"));
    let mut s = owned("Thread: ");
    s.append(id.as_str());
    s
}

/// The streamed text of a delta event: its `delta` string, empty when there
/// is none.
pub fn extract_delta(data: &str) -> (r: String)
    ensures
        r@ == or_empty(json_str_field(data@, "delta"@)),
{
    text_or_empty(str_field(data, "delta"))
}

/// The escape sequence that starts dim text.
pub open spec fn dim_open() -> Seq<char> {
    seq!['\u{1b}', '[', '2', 'm']
}

/// The escape sequence that resets the terminal's style.
pub open spec fn style_reset() -> Seq<char> {
    seq!['\u{1b}', '[', '0', 'm']
}

/// Whether `r` is some text wrapped in the dim sequence and the reset.
pub open spec fn dim_wrapped_shape(r: Seq<char>) -> bool {
    r.len() >= 8 && r.take(4) == dim_open() && r.skip(r.len() - 4) == style_reset()
}

/// `colored`'s `dimmed()` of the text, as a string. Trusted: whether escape
/// codes are added depends on the terminal and the environment, so the
/// result is the text itself or the text between the dim sequence and the
/// reset (where the text holds resets of its own, the dim sequence is
/// repeated after each of them).
#[verifier::external_body]
fn dimmed(text: &str) -> (r: String)
    ensures
        r@ == text@ || dim_wrapped_shape(r@),
        !has_infix(text@, style_reset()) ==> (r@ == text@ || r@ == dim_open() + text@
            + style_reset()),
{
    colored::Colorize::dimmed(text).to_string()
}

/// What a delta event prints: its text, dimmed for reasoning deltas.
pub fn render_delta(data: &str, dim: bool) -> (r: String)
    ensures
        !dim ==> r@ == or_empty(json_str_field(data@, "delta"@)),
        dim ==> r@ == or_empty(json_str_field(data@, "delta"@)) || dim_wrapped_shape(r@),
        dim && !has_infix(or_empty(json_str_field(data@, "delta"@)), style_reset()) ==> (r@
            == or_empty(json_str_field(data@, "delta"@)) || r@ == dim_open() + or_empty(
            json_str_field(data@, "delta"@),
        ) + style_reset()),
{
    let text = extract_delta(data);
    if dim {
        dimmed(text.as_str())
    } else {
        text
    }
}

/// The JSON text of a field, `null` when it is missing.
pub open spec fn field_or_null(data: Seq<char>, key: Seq<char>) -> Seq<char> {
    match json_field_text(data, key) {
        Some(t) => t,
        None => "null"@,
    }
}

pub(crate) fn field_text_or_null(data: &str, key: &str) -> (r: String)
    ensures
        r@ == field_or_null(data@, key@),
{
    match field_text(data, key) {
        Some(t) => t,
        None => owned("null"),
    }
}

/// `[tool_call] <name> <arguments>`.
pub open spec fn tool_call_line(data: Seq<char>) -> Seq<char> {
    if json_valid(data) {
        "[tool_call] "@ + or_empty(json_str_field(data, "name"@)) + " "@ + field_or_null(
            data,
            "arguments"@,
        )
    } else {
        "[tool_call] "@ + data
    }
}

pub fn format_tool_call_line(data: &str) -> (r: String)
    ensures
        r@ == tool_call_line(data@),
{
    if !is_json(data) {
        let mut s = owned("[tool_call] ");
        s.append(data);
        return s;
    }
    let name = text_or_empty(str_field(data, "name"));
    let args = field_text_or_null(data, "arguments");
    let mut s = owned("[tool_call] ");
    s.append(name.as_str());
    s.append(" ");
    s.append(args.as_str());
    s
}

/// `[tool_result] <name> ok=<ok> <data>`; `ok` is false unless the field
/// says true.
pub open spec fn tool_result_line(data: Seq<char>) -> Seq<char> {
    if json_valid(data) {
        "[tool_result] "@ + or_empty(json_str_field(data, "name"@)) + " ok="@ + bool_word(
            json_bool_field(data, "ok"@) == Some(true),
        ) + " "@ + field_or_null(data, "data"@)
    } else {
        "[tool_result] "@ + data
    }
}

pub fn format_tool_result_line(data: &str) -> (r: String)
    ensures
        r@ == tool_result_line(data@),
{
    if !is_json(data) {
        let mut s = owned("[tool_result] ");
        s.append(data);
        return s;
    }
    let name = text_or_empty(str_field(data, "name"));
    let ok = match bool_field(data, "ok") {
        Some(b) => b,
        None => false,
    };
    let result = field_text_or_null(data, "data");
    let mut s = owned("[tool_result] ");
    s.append(name.as_str());
    s.append(" ok=");
    s.append(if ok { "true" } else { "false" });
    s.append(" ");
    s.append(result.as_str());
    s
}

/// An integer field, 0 when missing.
pub open spec fn count_field(data: Seq<char>, key: Seq<char>) -> int {
    match json_i64_field(data, key) {
        Some(n) => n as int,
        None => 0,
    }
}

fn count_text(data: &str, key: &str) -> (r: String)
    ensures
        r@ == int_text(count_field(data@, key@)),
{
    let n = match i64_field(data, key) {
        Some(n) => n,
        None => 0,
    };
    i64_text(n)
}

/// `usage: input=… cached=… output=… total=… (<provider>/<model>)`.
pub open spec fn usage_line(data: Seq<char>) -> Seq<char> {
    if json_valid(data) {
        "usage: input="@ + int_text(count_field(data, "inputTokens"@)) + " cached="@ + int_text(
            count_field(data, "cachedInputTokens"@),
        ) + " output="@ + int_text(count_field(data, "outputTokens"@)) + " total="@ + int_text(
            count_field(data, "totalTokens"@),
        ) + " ("@ + or_empty(json_str_field(data, "provider"@)) + "/"@ + or_empty(
            json_str_field(data, "model"@),
        ) + ")"@
    } else {
        "[usage] "@ + data
    }
}

pub fn format_usage_line(data: &str) -> (r: String)
    ensures
        r@ == usage_line(data@),
{
    if !is_json(data) {
        let mut s = owned("[usage] ");
        s.append(data);
        return s;
    }
    let input = count_text(data, "inputTokens");
    let cached = count_text(data, "cachedInputTokens");
    let output = count_text(data, "outputTokens");
    let total = count_text(data, "totalTokens");
    let provider = text_or_empty(str_field(data, "provider"));
    let model = text_or_empty(str_field(data, "model"));
    let mut s = owned("usage: input=");
    s.append(input.as_str());
    s.append(" cached=");
    s.append(cached.as_str());
    s.append(" output=");
    s.append(output.as_str());
    s.append(" total=");
    s.append(total.as_str());
    s.append(" (");
    s.append(provider.as_str());
    s.append("/");
    s.append(model.as_str());
    s.append(")");
    s
}

/// The message of an `error` event, with its code in parentheses when there
/// is one; the raw data when it is not JSON.
pub open spec fn error_message(data: Seq<char>) -> Seq<char> {
    if json_valid(data) {
        let message = match json_str_field(data, "message"@) {
            Some(m) => m,
            None => "unknown error"@,
        };
        match json_str_field(data, "code"@) {
            Some(code) => message + " ("@ + code + ")"@,
            None => message,
        }
    } else {
        data
    }
}

pub fn extract_error_message(data: &str) -> (r: String)
    ensures
        r@ == error_message(data@),
{
    if !is_json(data) {
        return owned(data);
    }
    let mut message = match str_field(data, "message") {
        Some(m) => m,
        None => owned("unknown error"),
    };
    match str_field(data, "code") {
        Some(code) => {
            message.append(" (");
            message.append(code.as_str());
            message.append(")");
            message
        },
        None => message,
    }
}

/// `Goal: <title> (<id>)` for the `goal` event of `goal-chat`.
pub open spec fn goal_line(data: Seq<char>) -> Seq<char> {
    if json_valid(data) {
        "Goal: "@ + or_empty(json_str_field(data, "title"@)) + " ("@ + or_empty(
            json_str_field(data, "id"@),
        ) + ")"@
    } else {
        "[goal] "@ + data
    }
}

pub fn format_goal_line(data: &str) -> (r: String)
    ensures
        r@ == goal_line(data@),
{
    if !is_json(data) {
        let mut s = owned("[goal] ");
        s.append(data);
        return s;
    }
    let id = text_or_empty(str_field(data, "id"));
    let title = text_or_empty(str_field(data, "title"));
    let mut s = owned("Goal: ");
    s.append(title.as_str());
    s.append(" (");
    s.append(id.as_str());
    s.append(")");
    s
}

} // verus!
