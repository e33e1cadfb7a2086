//! Cloud Codex jobs: the one-line job summary.

use vstd::prelude::*;
pub use crate::json::parse_json_object;
use crate::json::{field_text, json_field_text, json_str_field, str_field};
use crate::text::{first_line, first_line_of, owned};

verus! {

#[derive(Debug)]
pub enum CodexJobCommands {
    /// List your cloud Codex jobs (newest first; jobs are private to the
    /// member who started them)
    List {
        /// Max number of results (default: 50, max: 100)
        limit: Option<u32>,
        /// Organization ID (uses default if not specified)
        org: Option<String>,
        /// Output as JSON
        json: bool,
    },
    /// Get a single cloud Codex job
    Get {
        /// Job ID
        id: String,
        /// Organization ID (uses default if not specified)
        org: Option<String>,
        /// Output as JSON
        json: bool,
    },
    /// Start a new cloud Codex job. NOTE: only one active session per user —
    /// if you already have an active job, the backend closes it first
    Create {
        /// Initial prompt (backend defaults to "Codex session" when omitted)
        prompt: Option<String>,
        /// Raw JSON object describing the workspace scope
        workspace_scope_json: Option<String>,
        /// Carry over the conversation thread of one of your finished jobs
        resume_job_id: Option<String>,
        /// Organization ID (uses default if not specified)
        org: Option<String>,
        /// Output as JSON
        json: bool,
    },
    /// Send a follow-up prompt to an active job
    Input {
        /// Job ID
        id: String,
        /// Prompt text to send
        prompt: String,
        /// Organization ID (uses default if not specified)
        org: Option<String>,
        /// Output as JSON
        json: bool,
    },
    /// Resume a finished (terminal) job, re-queueing it with its thread intact
    Resume {
        /// Job ID
        id: String,
        /// Organization ID (uses default if not specified)
        org: Option<String>,
        /// Output as JSON
        json: bool,
    },
    /// Interrupt the currently running turn (Escape-like; the session stays alive)
    Cancel {
        /// Job ID
        id: String,
        /// Organization ID (uses default if not specified)
        org: Option<String>,
        /// Output as JSON
        json: bool,
    },
    /// Close a job's session (requests termination; the job becomes inactive)
    Close {
        /// Job ID
        id: String,
        /// Organization ID (uses default if not specified)
        org: Option<String>,
        /// Skip the confirmation prompt
        force: bool,
        /// Output as JSON
        json: bool,
    },
    /// Delete a job (soft delete; closes it first when still active)
    Delete {
        /// Job ID
        id: String,
        /// Organization ID (uses default if not specified)
        org: Option<String>,
        /// Skip the confirmation prompt
        force: bool,
        /// Output as JSON
        json: bool,
    },
    /// Stream a job's event log (SSE) until the job reaches a terminal state
    Events {
        /// Job ID
        id: String,
        /// Resume after this event sequence number (for reconnects)
        from_seq: Option<u64>,
        /// Replay only the last N stored events (server cap: 2000; ignored
        /// when --from-seq is set)
        tail: Option<u64>,
        /// Organization ID (uses default if not specified)
        org: Option<String>,
        /// Emit each event as a raw JSON line instead of formatted text
        json: bool,
    },
}

/// The lifecycle state of a cloud Codex job.
#[derive(Clone, Copy, Debug, PartialEq, Eq)]
pub enum CodexJobStatus {
    Queued,
    Running,
    Idle,
    Succeeded,
    Failed,
    Cancelled,
}

impl CodexJobStatus {
    /// How the status is written (lower case, as the backend sends it).
    pub open spec fn text(self) -> Seq<char> {
        match self {
            CodexJobStatus::Queued => "queued"@,
            CodexJobStatus::Running => "running"@,
            CodexJobStatus::Idle => "idle"@,
            CodexJobStatus::Succeeded => "succeeded"@,
            CodexJobStatus::Failed => "failed"@,
            CodexJobStatus::Cancelled => "cancelled"@,
        }
    }

    pub fn as_str(self) -> (r: &'static str)
        ensures
            r@ == self.text(),
    {
        match self {
            CodexJobStatus::Queued => "queued",
            CodexJobStatus::Running => "running",
            CodexJobStatus::Idle => "idle",
            CodexJobStatus::Succeeded => "succeeded",
            CodexJobStatus::Failed => "failed",
            CodexJobStatus::Cancelled => "cancelled",
        }
    }

    /// Whether the job is still live (not in a terminal state).
    pub open spec fn active(self) -> bool {
        self == CodexJobStatus::Queued || self == CodexJobStatus::Running || self
            == CodexJobStatus::Idle
    }

    pub fn is_active(self) -> (r: bool)
        ensures
            r == self.active(),
    {
        match self {
            CodexJobStatus::Queued | CodexJobStatus::Running | CodexJobStatus::Idle => true,
            _ => false,
        }
    }
}

/// A cloud Codex job as the backend returns it.
#[derive(Debug)]
pub struct CodexJob {
    pub id: String,
    pub organization_id: String,
    pub requested_by_user_id: String,
    pub requested_by_member_id: String,
    pub status: CodexJobStatus,
    pub prompt: String,
    /// The workspace scope object, as JSON text.
    pub workspace_scope: Option<String>,
    pub runner_id: String,
    pub error_message: String,
    pub created_at: String,
    pub started_at: Option<String>,
    pub finished_at: Option<String>,
    pub updated_at: String,
}

/// `<id> [<status><*>] <first line of the prompt>`, with `*` marking an
/// active job.
pub open spec fn job_line(job: CodexJob) -> Seq<char> {
    job.id@ + " ["@ + job.status.text() + (if job.status.active() {
        "*"@
    } else {
        ""@
    }) + "] "@ + first_line(job.prompt@)
}

pub fn format_job_line(job: &CodexJob) -> (r: String)
    ensures
        r@ == job_line(*job),
{
    let marker = if job.status.is_active() {
        "*"
    } else {
        ""
    };
    let prompt = first_line_of(job.prompt.as_str());
    let mut r = owned(job.id.as_str());
    r.append(" [");
    r.append(job.status.as_str());
    r.append(marker);
    r.append("] ");
    r.append(prompt.as_str());
    r
}

/// `[<event>] <payload>`: a string payload as it is, another payload as its
/// JSON text; the raw data when there is no payload (or it is null or empty).
pub open spec fn event_payload(data: Seq<char>) -> Option<Seq<char>> {
    match json_str_field(data, "payload"@) {
        Some(t) => Some(t),
        None => match json_field_text(data, "payload"@) {
            Some(t) => if t == "null"@ {
                None
            } else {
                Some(t)
            },
            None => None,
        },
    }
}

pub open spec fn event_line(event_type: Seq<char>, data: Seq<char>) -> Seq<char> {
    match event_payload(data) {
        Some(t) => if t.len() > 0 {
            "["@ + event_type + "] "@ + t
        } else {
            "["@ + event_type + "] "@ + data
        },
        None => "["@ + event_type + "] "@ + data,
    }
}

pub fn format_event_line(event_type: &str, data: &str) -> (r: String)
    ensures
        r@ == event_line(event_type@, data@),
{
    let payload: Option<String> = match str_field(data, "payload") {
        Some(t) => Some(t),
        None => match field_text(data, "payload") {
            Some(t) => if crate::text::str_eq(t.as_str(), "null") {
                None
            } else {
                Some(t)
            },
            None => None,
        },
    };
    let mut s = owned("[");
    s.append(event_type);
    s.append("] ");
    match payload {
        Some(t) => {
            if crate::text::char_count(t.as_str()) > 0 {
                s.append(t.as_str());
            } else {
                s.append(data);
            }
        },
        None => s.append(data),
    }
    s
}

} // verus!
