//! AI threads: titles and response checks.

use vstd::prelude::*;
use crate::json::{json_value_of, json_str_field, json_valid, parse_json_arg, str_field};
use crate::ai_chat_render::bool_word;
use crate::goal_detail::{
    bold, cat, line2, line_view, lines_view, plain, push_line, push_seg, seg, SegModel, Segment,
};
use crate::stream_event::Style;
use crate::text::{
    char_count, collapse_whitespace, collapse_ws, dec, i64_text, int_text, owned, u64_text,
};

verus! {

#[derive(Debug)]
pub enum ThreadCommands {
    /// Create a new AI thread
    Create {
        /// Thread title (optional; the backend accepts an empty title)
        title: String,
        /// Metadata as a JSON object, e.g. '{"key":"value"}'
        metadata: Option<String>,
        /// Bind the thread to a specific AI agent (organization member ID)
        agent_id: Option<String>,
        /// Organization ID (uses default if not specified)
        org: Option<String>,
        /// Output as JSON
        json: bool,
    },
    /// List your AI threads (server-paginated)
    List {
        /// Filter by AI agent (organization member ID)
        agent_id: Option<String>,
        /// Filter scope ("agent_hub" is the only accepted non-empty value)
        scope: Option<String>,
        /// Filter to threads scoped to a specific goal (objective) ID
        objective_id: Option<String>,
        /// Max threads to return (backend default 20, max 100)
        limit: Option<u32>,
        /// Pagination offset
        offset: Option<u32>,
        /// Organization ID (uses default if not specified)
        org: Option<String>,
        /// Output as JSON
        json: bool,
    },
    /// Get a single thread
    Get {
        /// Thread ID
        id: String,
        /// Organization ID (uses default if not specified)
        org: Option<String>,
        /// Output as JSON
        json: bool,
    },
    /// Rename a thread and/or replace its metadata
    Update {
        /// Thread ID
        id: String,
        /// New title (required by the backend; the empty string is allowed)
        title: String,
        /// Metadata as a JSON object, e.g. '{"key":"value"}'
        metadata: Option<String>,
        /// Organization ID (uses default if not specified)
        org: Option<String>,
        /// Output as JSON
        json: bool,
    },
    /// Permanently delete a thread
    Delete {
        /// Thread ID
        id: String,
        /// Organization ID (uses default if not specified)
        org: Option<String>,
        /// Skip confirmation prompt
        force: bool,
    },
    /// List a thread's messages
    Messages {
        /// Thread ID
        id: String,
        /// Max messages to return (backend default 50)
        limit: Option<u32>,
        /// Pagination offset
        offset: Option<u32>,
        /// Include internal-only messages (debug); omitted returns the
        /// UI-visible set only
        include_internal: bool,
        /// Organization ID (uses default if not specified)
        org: Option<String>,
        /// Output as JSON
        json: bool,
    },
    /// Send a message in a thread and stream the AI agent's reply (SSE,
    /// ends on the backend's `finish` event). LLM-billed.
    Chat {
        /// Thread ID
        id: String,
        /// Message text to send
        message: String,
        /// Chat mode (e.g. hearing_mode, gekizume_mode, planning_mode)
        mode: Option<String>,
        /// Model name override
        model: Option<String>,
        /// Goal (objective) IDs mentioned in the message (comma-separated)
        mentioned_objective_ids: Vec<String>,
        /// Member IDs mentioned in the message (comma-separated)
        mentioned_member_ids: Vec<String>,
        /// Skill IDs mentioned in the message (comma-separated)
        mentioned_skill_ids: Vec<String>,
        /// Organization ID (uses default if not specified)
        org: Option<String>,
        /// Emit each SSE event as a JSON line (`{"event":...,"data":...}`)
        /// instead of formatted text
        json: bool,
    },
    /// Cancel the thread's currently-running turn, if any
    Cancel {
        /// Thread ID
        id: String,
        /// Organization ID (uses default if not specified)
        org: Option<String>,
    },
    /// Edit a past message, drop everything after it, and stream a
    /// regenerated reply (SSE, ends on the backend's `finish` event).
    /// LLM-billed.
    EditAndRegenerate {
        /// Thread ID
        thread_id: String,
        /// Message ID to edit
        message_id: String,
        /// New message content
        content: String,
        /// Chat mode (e.g. hearing_mode, gekizume_mode, planning_mode)
        mode: Option<String>,
        /// Goal (objective) IDs mentioned in the message (comma-separated)
        mentioned_objective_ids: Vec<String>,
        /// Member IDs mentioned in the message (comma-separated)
        mentioned_member_ids: Vec<String>,
        /// Organization ID (uses default if not specified)
        org: Option<String>,
        /// Emit each SSE event as a JSON line (`{"event":...,"data":...}`)
        /// instead of formatted text
        json: bool,
    },
    /// List a thread's action traces (tool executions the agent performed)
    Traces {
        /// Thread ID
        id: String,
        /// Max traces to return (backend default 50)
        limit: Option<u32>,
        /// Pagination offset
        offset: Option<u32>,
        /// Organization ID (uses default if not specified)
        org: Option<String>,
        /// Output as JSON
        json: bool,
    },
    /// Revert (undo) a previously-executed, revertible action trace
    RevertTrace {
        /// Thread ID
        thread_id: String,
        /// Trace ID (from `addness thread traces`)
        trace_id: String,
        /// Organization ID (uses default if not specified)
        org: Option<String>,
        /// Skip confirmation prompt
        force: bool,
        /// Output as JSON
        json: bool,
    },
    /// Create (or refresh) a public share link for a thread
    ShareCreate {
        /// Thread ID
        id: String,
        /// Organization ID (uses default if not specified)
        org: Option<String>,
        /// Output as JSON
        json: bool,
    },
    /// Revoke a thread's public share link
    ShareRevoke {
        /// Thread ID
        id: String,
        /// Organization ID (uses default if not specified)
        org: Option<String>,
        /// Skip confirmation prompt
        force: bool,
    },
    /// Answer a pending in-chat question the agent asked
    QuestionRespond {
        /// Thread ID
        id: String,
        /// Pending question's request ID
        request_id: String,
        /// Single-choice answer
        answer: Option<String>,
        /// Multi-choice answers (comma-separated)
        answers: Vec<String>,
        /// Organization ID (uses default if not specified)
        org: Option<String>,
        /// Output as JSON
        json: bool,
    },
    /// Approve or reject a pending tool-execution confirmation request
    ToolConfirmationRespond {
        /// Thread ID
        id: String,
        /// Pending confirmation's request ID
        request_id: String,
        /// Approve the tool execution (mutually exclusive with --reject)
        approve: bool,
        /// Reject the tool execution (mutually exclusive with --approve)
        reject: bool,
        /// Organization ID (uses default if not specified)
        org: Option<String>,
        /// Output as JSON
        json: bool,
    },
    /// Fetch the thread tying a specific goal to a specific AI member
    Assignment {
        /// Goal (objective) ID
        objective_id: String,
        /// AI member's organization member ID
        member_id: String,
        /// Organization ID (uses default if not specified)
        org: Option<String>,
        /// Output as JSON
        json: bool,
    },
}

/// A thread title on one line: its words joined by single spaces, or
/// `(untitled)` for an empty title.
pub open spec fn single_line_title_spec(title: Seq<char>) -> Seq<char> {
    if title.len() == 0 {
        "(untitled)"@
    } else {
        collapse_ws(title)
    }
}

pub fn single_line_title(title: &str) -> (r: String)
    ensures
        r@ == single_line_title_spec(title@),
{
    if char_count(title) == 0 {
        return owned("(untitled)");
    }
    collapse_whitespace(title)
}

/// `thread question-respond`: an answer must be given one way or the other.
pub fn ensure_question_answer(answer: &Option<String>, answers: &Vec<String>) -> (r: Result<(), String>)
    ensures
        r is Ok <==> (answer is Some || answers@.len() > 0),
        r matches Err(e) ==> e@ == "Specify either --answer or --answers"@,
{
    if answer.is_none() && answers.len() == 0 {
        return Err(owned("Specify either --answer or --answers"));
    }
    Ok(())
}

/// `thread tool-confirmation-respond`: one of the two choices must be made.
pub fn ensure_tool_confirmation_choice(approve: bool, reject: bool) -> (r: Result<(), String>)
    ensures
        r is Ok <==> (approve || reject),
        r matches Err(e) ==> e@ == "Specify either --approve or --reject"@,
{
    if !approve && !reject {
        return Err(owned("Specify either --approve or --reject"));
    }
    Ok(())
}

/// `--metadata`: any JSON value, refused where it does not parse.
pub fn parse_metadata(raw: &str) -> (r: Result<serde_json::Value, String>)
    ensures
        r is Ok <==> json_valid(raw@),
        r matches Ok(v) ==> v == json_value_of(raw@),
        r matches Err(e) ==> e@ == "--metadata must be valid JSON"@,
{
    proof {
        reveal_strlit("--metadata");
        reveal_strlit(" must be valid JSON");
        reveal_strlit("--metadata must be valid JSON");
        assert("--metadata"@ + " must be valid JSON"@ =~= "--metadata must be valid JSON"@);
    }
    parse_json_arg(raw, "--metadata")
}

/// What `thread messages` shows of a message: the `text` string of its
/// content, else the content's JSON text (`content`) as it stands.
pub fn message_display_text(content: &str) -> (r: String)
    ensures
        r@ == match json_str_field(content@, "text"@) {
            Some(t) => t,
            None => content@,
        },
{
    match str_field(content, "text") {
        Some(t) => t,
        None => owned(content),
    }
}

/// A thread as the thread endpoints return it.
#[derive(Debug)]
pub struct ThreadResponse {
    pub id: String,
    pub title: String,
    pub status: String,
    pub message_count: i64,
    pub ai_agent_id: Option<String>,
    pub share_token: Option<String>,
    pub is_public: bool,
    pub last_message_at: Option<String>,
}

/// A line of one plain segment.
pub open spec fn text_line(t: Seq<char>) -> Seq<SegModel> {
    seq![plain(t)]
}

/// What `thread get` and the other thread commands print of a thread: its
/// ID in bold with its title on one line, its status and message count,
/// then the agent, share token and last message time it has.
pub open spec fn thread_lines(t: ThreadResponse) -> Seq<Seq<SegModel>> {
    seq![
        seq![bold(t.id@), plain(" "@ + single_line_title_spec(t.title@))],
        text_line("  status: "@ + t.status@),
        text_line("  messages: "@ + int_text(t.message_count as int)),
    ] + match t.ai_agent_id {
        Some(a) => seq![text_line("  aiAgentId: "@ + a@)],
        None => Seq::empty(),
    } + match t.share_token {
        Some(s) => seq![
            text_line("  shareToken: "@ + s@ + " (public="@ + bool_word(t.is_public) + ")"@),
        ],
        None => Seq::empty(),
    } + match t.last_message_at {
        Some(l) => seq![text_line("  lastMessageAt: "@ + l@)],
        None => Seq::empty(),
    }
}

fn push_text_line(out: &mut Vec<Vec<Segment>>, text: String)
    ensures
        lines_view(final(out)@) == lines_view(old(out)@).push(text_line(text@)),
{
    let mut l: Vec<Segment> = Vec::new();
    proof {
        assert(line_view(l) =~= Seq::<SegModel>::empty());
    }
    push_seg(&mut l, seg(text, Style::Plain));
    assert(line_view(l) =~= text_line(text@));
    push_line(out, l);
}

pub fn thread_response_lines(t: &ThreadResponse) -> (r: Vec<Vec<Segment>>)
    ensures
        lines_view(r@) == thread_lines(*t),
{
    let mut out: Vec<Vec<Segment>> = Vec::new();
    proof {
        assert(lines_view(out@) =~= Seq::<Seq<SegModel>>::empty());
    }
    let title = single_line_title(t.title.as_str());
    push_line(
        &mut out,
        line2(seg(owned(t.id.as_str()), Style::Bold), seg(cat(" ", title.as_str()), Style::Plain)),
    );
    push_text_line(&mut out, cat("  status: ", t.status.as_str()));
    let n = i64_text(t.message_count);
    push_text_line(&mut out, cat("  messages: ", n.as_str()));
    if let Some(a) = &t.ai_agent_id {
        push_text_line(&mut out, cat("  aiAgentId: ", a.as_str()));
    }
    if let Some(token) = &t.share_token {
        let mut line = cat("  shareToken: ", token.as_str());
        line.append(" (public=");
        line.append(if t.is_public {
            "true"
        } else {
            "false"
        });
        line.append(")");
        push_text_line(&mut out, line);
    }
    if let Some(l) = &t.last_message_at {
        push_text_line(&mut out, cat("  lastMessageAt: ", l.as_str()));
    }
    proof {
        assert(lines_view(out@) =~= thread_lines(*t));
    }
    out
}

/// The link printed for a new share: its URL, or its token where the
/// backend gave no URL.
pub fn share_link_line(share_url: Option<&str>, share_token: &str) -> (r: String)
    ensures
        r@ == "Share link created: "@ + match share_url {
            Some(u) => u@,
            None => share_token@,
        },
{
    let mut s = owned("Share link created: ");
    match share_url {
        Some(u) => s.append(u),
        None => s.append(share_token),
    }
    s
}

/// What a thread listing prints when it is empty (dimmed): one note per
/// listing.
pub open spec fn empty_listing_note(kind: ThreadListing) -> Seq<char> {
    match kind {
        ThreadListing::Threads => "No threads found."@,
        ThreadListing::Messages => "No messages found."@,
        ThreadListing::Traces => "No action traces found."@,
    }
}

/// The listings of the `thread` commands.
#[derive(Clone, Copy, Debug, PartialEq, Eq)]
pub enum ThreadListing {
    Threads,
    Messages,
    Traces,
}

pub fn empty_listing_line(kind: ThreadListing) -> (r: Vec<Segment>)
    ensures
        line_view(r) == seq![SegModel::Text { text: empty_listing_note(kind), style: Style::Dimmed }],
{
    let text = match kind {
        ThreadListing::Threads => owned("No threads found."),
        ThreadListing::Messages => owned("No messages found."),
        ThreadListing::Traces => owned("No action traces found."),
    };
    crate::goal_detail::line1(seg(text, Style::Dimmed))
}

/// A row of `thread list`: ID, title on one line, status, message count
/// and the time of the last message (`-` without one).
pub open spec fn thread_row_text(t: ThreadResponse) -> Seq<char> {
    t.id@ + "  "@ + single_line_title_spec(t.title@) + "  status="@ + t.status@ + "  messages="@
        + int_text(t.message_count as int) + "  last="@ + match t.last_message_at {
        Some(l) => l@,
        None => "-"@,
    }
}

pub fn thread_row(t: &ThreadResponse) -> (r: String)
    ensures
        r@ == thread_row_text(*t),
{
    let mut s = owned(t.id.as_str());
    s.append("  ");
    let title = single_line_title(t.title.as_str());
    s.append(title.as_str());
    s.append("  status=");
    s.append(t.status.as_str());
    s.append("  messages=");
    let n = i64_text(t.message_count);
    s.append(n.as_str());
    s.append("  last=");
    match &t.last_message_at {
        Some(l) => s.append(l.as_str()),
        None => s.append("-"),
    }
    s
}

/// The dimmed footer of `thread list`.
pub fn thread_list_footer(total: u64, limit: u64, offset: u64) -> (r: String)
    ensures
        r@ == "-- total="@ + dec(total as nat) + " limit="@ + dec(limit as nat) + " offset="@ + dec(
            offset as nat,
        ),
{
    let mut s = owned("-- total=");
    let a = u64_text(total);
    s.append(a.as_str());
    s.append(" limit=");
    let b = u64_text(limit);
    s.append(b.as_str());
    s.append(" offset=");
    let c = u64_text(offset);
    s.append(c.as_str());
    s
}

} // verus!
