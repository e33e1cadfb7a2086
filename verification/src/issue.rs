//! Goal issues and goal sections: body, preview and cursor validation.

use vstd::prelude::*;
use crate::text::{
    blank, char_count, chars_of, flatten_newline_chars, flatten_newlines, is_blank, owned,
    truncate_chars_with_ellipsis, truncate_ellipsis,
};

verus! {

/// Scope filter accepted by GET /api/v2/goal-sections.
/// Omitted = incomplete goals only (organization-wide).
#[derive(Clone, Copy, Debug, PartialEq, Eq)]
pub enum SectionScope {
    /// Only goals shown on the today-todo screen
    Today,
    /// All goals including completed ones, ordered by activity
    All,
}

#[derive(Debug)]
pub enum IssueCommands {
    /// List issues (chat threads) on a goal
    List {
        /// Goal ID
        goal: String,
        /// Filter by resolved status
        resolved: Option<bool>,
        /// Max number of issues to return
        limit: Option<u16>,
        /// Keyset cursor: return issues active before this RFC3339 timestamp
        before: Option<String>,
        /// Keyset cursor: message ID paired with --before
        before_id: Option<String>,
        /// Output as JSON
        json: bool,
    },
    /// List issues across all goals you can access
    ListAll {
        /// Filter by resolved status
        resolved: Option<bool>,
        /// Max number of issues to return
        limit: Option<u16>,
        /// Keyset cursor: return issues active before this RFC3339 timestamp
        before: Option<String>,
        /// Keyset cursor: message ID paired with --before
        before_id: Option<String>,
        /// Output as JSON
        json: bool,
    },
    /// Create an issue (root chat message) on a goal
    Create {
        /// Goal ID
        goal: String,
        /// Issue body
        body: Option<String>,
        /// Read issue body from a file. Use '-' to read stdin.
        body_file: Option<String>,
        /// Mention organization member IDs (UUID), repeatable
        mention: Vec<String>,
        /// Output as JSON
        json: bool,
    },
    /// Edit an issue's content
    Update {
        /// Issue ID (root message ID)
        id: String,
        /// Goal ID
        goal: String,
        /// New issue body
        body: Option<String>,
        /// New issue body from a file. Use '-' to read stdin.
        body_file: Option<String>,
        /// Output as JSON
        json: bool,
    },
    /// Mark an issue as read
    Read {
        /// Issue ID (root message ID)
        id: String,
        /// Goal ID
        goal: String,
    },
    /// List messages in an issue thread
    Messages {
        /// Issue ID (root message ID)
        id: String,
        /// Goal ID
        goal: String,
        /// Max number of messages to return
        limit: Option<u16>,
        /// Keyset cursor: return messages created before this RFC3339 timestamp
        before: Option<String>,
        /// Keyset cursor: message ID paired with --before
        before_id: Option<String>,
        /// Output as JSON
        json: bool,
    },
    /// Post a reply message to an issue thread
    Reply {
        /// Issue ID (root message ID)
        id: String,
        /// Goal ID
        goal: String,
        /// Message body
        body: Option<String>,
        /// Read message body from a file. Use '-' to read stdin.
        body_file: Option<String>,
        /// Mention organization member IDs (UUID), repeatable
        mention: Vec<String>,
        /// Output as JSON
        json: bool,
    },
    /// Edit a message in an issue thread
    EditMessage {
        /// Message ID
        id: String,
        /// Goal ID
        goal: String,
        /// Issue ID (root message ID)
        issue: String,
        /// New message body
        body: Option<String>,
        /// New message body from a file. Use '-' to read stdin.
        body_file: Option<String>,
        /// Output as JSON
        json: bool,
    },
    /// Add an emoji reaction to an issue message
    React {
        /// Message ID (use the issue ID to react to the root message)
        id: String,
        /// Goal ID
        goal: String,
        /// Issue ID (root message ID)
        issue: String,
        /// Emoji (e.g. 👍)
        emoji: String,
        /// Output as JSON
        json: bool,
    },
    /// Remove your emoji reaction from an issue message
    Unreact {
        /// Message ID
        id: String,
        /// Goal ID
        goal: String,
        /// Issue ID (root message ID)
        issue: String,
        /// Emoji to remove
        emoji: String,
        /// Skip confirmation prompt
        force: bool,
    },
    /// List member IDs who reacted to an issue message with an emoji
    Reactions {
        /// Message ID
        id: String,
        /// Goal ID
        goal: String,
        /// Issue ID (root message ID)
        issue: String,
        /// Emoji to look up
        emoji: String,
        /// Output as JSON
        json: bool,
    },
    /// Search issue messages across goals
    Search {
        /// Search query
        query: String,
        /// Max number of messages to return
        limit: Option<u16>,
        /// Keyset cursor: return messages created before this RFC3339 timestamp
        before: Option<String>,
        /// Keyset cursor: message ID paired with --before
        before_id: Option<String>,
        /// Output as JSON
        json: bool,
    },
    /// Preview issue messages by ID (quote cards; max 50 IDs)
    Preview {
        /// Message ID (repeatable)
        ids: Vec<String>,
        /// Output as JSON
        json: bool,
    },
    /// Mark an issue as resolved
    Resolve {
        /// Issue ID (root message ID)
        id: String,
        /// Output as JSON
        json: bool,
    },
    /// Mark an issue as unresolved
    Unresolve {
        /// Issue ID (root message ID)
        id: String,
        /// Output as JSON
        json: bool,
    },
    /// Goal sections (per-goal chat overview, pins, unread counters)
    Sections {
        command: SectionCommands,
    },
}

#[derive(Debug)]
pub enum SectionCommands {
    /// List goal sections (paged activity feed)
    List {
        /// Scope: today (today-todo goals) or all (including completed)
        scope: Option<SectionScope>,
        /// Filter sections by issue resolved status
        resolved: Option<bool>,
        /// Exclude goals without any issues
        has_comments: bool,
        /// Max number of sections to return
        limit: Option<u16>,
        /// Continuation cursor: has_unread echo value from next_cursor
        has_unread: Option<bool>,
        /// Continuation cursor: section_before from next_cursor (RFC3339)
        section_before: Option<String>,
        /// Continuation cursor: section_before_id from next_cursor (goal ID)
        section_before_id: Option<String>,
        /// Continuation cursor: unread_as_of from next_cursor (RFC3339)
        unread_as_of: Option<String>,
        /// Output as JSON
        json: bool,
    },
    /// List pinned goal sections
    Pinned {
        /// Output as JSON
        json: bool,
    },
    /// Show the unread issue-comment count across goals
    UnreadCount {
        /// Output as JSON
        json: bool,
    },
    /// Show the unread mention count across goals
    UnreadMentions {
        /// Output as JSON
        json: bool,
    },
    /// Pin a goal section
    Pin {
        /// Goal ID
        goal_id: String,
    },
    /// Unpin a goal section
    Unpin {
        /// Goal ID
        goal_id: String,
    },
}

/// Maximum content length (in characters) accepted by the goal-issue backend.
pub const MAX_ISSUE_CONTENT_CHARS: usize = 4000;

/// Maximum number of IDs per preview request.
pub const MAX_PREVIEW_IDS: usize = 50;

impl SectionScope {
    /// The value the backend expects.
    pub open spec fn backend_value(self) -> Seq<char> {
        match self {
            SectionScope::Today => "today"@,
            SectionScope::All => "all"@,
        }
    }

    pub fn as_str(self) -> (r: &'static str)
        ensures
            r@ == self.backend_value(),
    {
        match self {
            SectionScope::Today => "today",
            SectionScope::All => "all",
        }
    }
}

/// Validates issue/message content: not blank and at most
/// `MAX_ISSUE_CONTENT_CHARS` characters. Returns the content unchanged.
pub fn ensure_issue_body(content: String) -> (r: Result<String, String>)
    ensures
        r is Ok <==> !is_blank(content@) && content@.len() <= MAX_ISSUE_CONTENT_CHARS,
        r matches Ok(c) ==> c == content,
        r matches Err(e) ==> e@ == (if is_blank(content@) {
            "Message body is empty. Specify --body, --body-file, or pipe content with --body -."@
        } else {
            "Message body must be 4000 characters or less."@
        }),
{
    if blank(content.as_str()) {
        return Err(owned("Message body is empty. Specify --body, --body-file, or pipe content with --body -."));
    }
    if char_count(content.as_str()) > MAX_ISSUE_CONTENT_CHARS {
        return Err(owned("Message body must be 4000 characters or less."));
    }
    Ok(content)
}

/// Validates preview IDs: at least one, at most `MAX_PREVIEW_IDS`.
pub fn ensure_preview_ids(ids: &[String]) -> (r: Result<(), String>)
    ensures
        r is Ok <==> 1 <= ids@.len() <= MAX_PREVIEW_IDS,
        r matches Err(e) ==> e@ == (if ids@.len() == 0 {
            "Specify at least one --id."@
        } else {
            "--id accepts at most 50 values per request."@
        }),
{
    if ids.len() == 0 {
        return Err(owned("Specify at least one --id."));
    }
    if ids.len() > MAX_PREVIEW_IDS {
        return Err(owned("--id accepts at most 50 values per request."));
    }
    Ok(())
}

/// How many of the four continuation-cursor fields are given.
pub open spec fn cursor_fields_given(
    has_unread: Option<bool>,
    section_before: Option<&str>,
    section_before_id: Option<&str>,
    unread_as_of: Option<&str>,
) -> int {
    (if has_unread is Some { 1int } else { 0 }) + (if section_before is Some { 1int } else { 0 })
        + (if section_before_id is Some { 1int } else { 0 }) + (if unread_as_of is Some {
        1int
    } else {
        0
    })
}

/// The continuation cursor is all four fields (a continuation page) or none
/// of them (the first page).
pub fn ensure_section_cursor(
    has_unread: Option<bool>,
    section_before: Option<&str>,
    section_before_id: Option<&str>,
    unread_as_of: Option<&str>,
) -> (r: Result<(), String>)
    ensures
        r is Ok <==> (cursor_fields_given(has_unread, section_before, section_before_id, unread_as_of)
            == 0 || cursor_fields_given(has_unread, section_before, section_before_id, unread_as_of)
            == 4),
        r matches Err(e) ==> e@
            == "Continuation requires all of --has-unread, --section-before, --section-before-id, and --unread-as-of (copy them from next_cursor)."@,
{
    let mut count: usize = 0;
    if has_unread.is_some() {
        count = count + 1;
    }
    if section_before.is_some() {
        count = count + 1;
    }
    if section_before_id.is_some() {
        count = count + 1;
    }
    if unread_as_of.is_some() {
        count = count + 1;
    }
    if count != 0 && count != 4 {
        return Err(owned("Continuation requires all of --has-unread, --section-before, --section-before-id, and --unread-as-of (copy them from next_cursor)."));
    }
    Ok(())
}

/// `content` on one line (line feeds become spaces), cut to `max_chars`
/// characters with a trailing `...` when longer.
pub fn truncate_content(content: &str, max_chars: usize) -> (r: String)
    ensures
        r@ == truncate_ellipsis(flatten_newlines(content@), max_chars as int),
{
    let v = chars_of(content);
    let flat = flatten_newline_chars(&v);
    truncate_chars_with_ellipsis(&flat, max_chars)
}

} // verus!
