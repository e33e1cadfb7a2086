//! Goal executions, execution preferences and Codex runs: commands.

use vstd::prelude::*;
pub use crate::json::parse_json_arg;


verus! {

#[derive(Debug)]
pub enum ExecutionCommands {
    /// Show today's goal count summary (total/incomplete/is-goal-uncreated)
    Summary {
        /// Organization ID (uses default if not specified)
        org: Option<String>,
        /// Date in YYYY-MM-DD (required)
        date: String,
        /// Filter to a specific organization member (UUID)
        member_id: Option<String>,
        /// Output as JSON
        json: bool,
    },
    /// Show per-member completed-execution counts (paginated report)
    MemberSummary {
        /// Organization ID (uses default if not specified)
        org: Option<String>,
        /// Range start in YYYY-MM-DD
        from: Option<String>,
        /// Range end in YYYY-MM-DD
        to: Option<String>,
        /// Member name search
        query: Option<String>,
        /// Filter by goal assignment (requires --type)
        objective_id: Option<String>,
        /// Comma-separated assignment types: owner, editor, member, non-member (requires --objective-id)
        assignment_type: Option<String>,
        /// Comma-separated tag UUIDs (max 20)
        tag_ids: Option<String>,
        /// Page number (default 1)
        page: Option<u32>,
        /// Page size (default 10, max 100)
        page_size: Option<u32>,
        /// Sort field: name, created_at, completed_count
        sort_by: Option<String>,
        /// Sort direction: asc, desc
        sort_dir: Option<String>,
        /// Output as JSON
        json: bool,
    },
    /// Generate today's execution records for every goal due today
    Generate {
        /// Organization ID (uses default if not specified)
        org: Option<String>,
        /// Output as JSON
        json: bool,
    },
    /// Update an execution record's status/completion
    Update {
        /// Execution record ID
        record_id: String,
        /// Organization ID (uses default if not specified)
        org: Option<String>,
        /// New status: NONE or IN_PROGRESS
        status: Option<String>,
        /// Mark completed at this RFC3339 timestamp
        completed_at: Option<String>,
        /// Mark as not completed (clears completedAt)
        uncomplete: bool,
        /// Output as JSON
        json: bool,
    },
    /// Show execution history with completion-rate/streak stats
    History {
        /// Organization ID (uses default if not specified)
        org: Option<String>,
        /// Range start in YYYY-MM-DD
        from: String,
        /// Range end in YYYY-MM-DD
        to: String,
        /// Filter to a single goal
        objective_id: Option<String>,
        /// Max records to return (default 50, max 200)
        limit: Option<u32>,
        /// Pagination offset
        offset: Option<u32>,
        /// Output as JSON
        json: bool,
    },
    /// Manage the collapsed/expanded state of goals in the execution tab
    Preference {
        command: PreferenceCommands,
    },
    /// List active huddles (voice calls) attached to today's goals
    ActiveHuddles {
        /// Organization ID (uses default if not specified)
        org: Option<String>,
        /// Output as JSON
        json: bool,
    },
    /// Interact with the Codex-agent view of today's goals
    Codex {
        command: CodexCommands,
    },
}

#[derive(Debug)]
pub enum PreferenceCommands {
    /// Show which goals are currently collapsed in the execution tab
    Get {
        /// Organization ID (uses default if not specified)
        org: Option<String>,
        /// Output as JSON
        json: bool,
    },
    /// Replace the set of collapsed goal IDs
    SetValue {
        /// Organization ID (uses default if not specified)
        org: Option<String>,
        /// Goal IDs to collapse (repeatable; pass none to expand everything)
        goal_ids: Vec<String>,
        /// Output as JSON
        json: bool,
    },
}

#[derive(Debug)]
pub enum CodexCommands {
    /// Show the Codex-agent read-only view of today's goals (raw JSON; short-id + DSL
    /// format designed for the Codex agent, not for human editing)
    View {
        /// Organization ID (uses default if not specified)
        org: Option<String>,
        /// Date in YYYY-MM-DD (defaults to today)
        date: Option<String>,
        /// Present for consistency with other commands; the response shape is
        /// opaque (Codex-agent DSL) so it is always printed as JSON
        json: bool,
    },
    /// Apply a batch of Codex-agent changes to today's goals
    Apply {
        /// Organization ID (uses default if not specified)
        org: Option<String>,
        /// Payload version (defaults to 1)
        version: Option<i32>,
        /// Date in YYYY-MM-DD (defaults to today)
        date: Option<String>,
        /// Raw JSON array of changes, per the Codex apply DSL returned by `execution codex view`
        changes_json: String,
        /// Present for consistency with other commands; the response shape is
        /// opaque (Codex-agent DSL) so it is always printed as JSON
        json: bool,
    },
}

} // verus!
