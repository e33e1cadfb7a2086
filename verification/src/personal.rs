//! Personal workspace: markdown targets, agent sessions and projects.

use vstd::prelude::*;
use crate::text::owned;

verus! {

/// `target` accepted by the text-patch / markdown-edit endpoints
/// (`internal/personal/usecase/markdown.go` `markdownKind`).
#[derive(Clone, Copy, Debug, PartialEq, Eq)]
pub enum PersonalTarget {
    Now,
    Day,
    Project,
}

/// Agent session status (`internal/personal/usecase/usecase.go` `validStatus`).
#[derive(Clone, Copy, Debug, PartialEq, Eq)]
pub enum PersonalAgentSessionStatus {
    Active,
    Waiting,
    Completed,
    Archived,
}

/// Project status (`internal/personal/usecase/usecase.go` `validProjectStatus`).
#[derive(Clone, Copy, Debug, PartialEq, Eq)]
pub enum PersonalProjectStatus {
    Active,
    Archived,
}

#[derive(Debug)]
pub enum PersonalCommands {
    /// Show your personal "now" document (scratchpad, org-independent)
    Now {
        /// Output as JSON
        json: bool,
    },
    /// Show today's personal daily-entry document
    Today {
        /// IANA timezone used to resolve "today" (default: UTC)
        timezone: Option<String>,
        /// Output as JSON
        json: bool,
    },
    /// Append a line to today's personal daily-entry document
    TodayAppend {
        /// Text to append
        body: String,
        /// IANA timezone used to resolve "today" (default: UTC)
        timezone: Option<String>,
        /// Output as JSON
        json: bool,
    },
    /// Show a specific day's personal daily-entry document
    Day {
        /// Local date (YYYY-MM-DD)
        date: String,
        /// IANA timezone used to interpret the date
        timezone: Option<String>,
        /// Output as JSON
        json: bool,
    },
    /// Replace a character range of a personal document (now/day/project) by offset
    TextPatch {
        /// Document to patch
        target: PersonalTarget,
        /// Project ID (required when --target project)
        id: Option<String>,
        /// Local date (required when --target day)
        date: Option<String>,
        /// IANA timezone
        timezone: Option<String>,
        /// Start offset (rune index, inclusive)
        start: i64,
        /// End offset (rune index, exclusive)
        end: i64,
        /// Replacement text
        text: String,
        /// SHA-256 hash of the document body you last read (optimistic concurrency)
        base_hash: String,
        /// Expected current text of the [start,end) range; rejected if it doesn't match
        expected: Option<String>,
        /// Preview the patch without saving it
        dry_run: bool,
        /// Output as JSON
        json: bool,
    },
    /// Analyze and edit personal documents as structured Markdown
    Markdown {
        command: MarkdownCommands,
    },
    /// Manage your personal agent sessions
    AgentSession {
        command: AgentSessionCommands,
    },
    /// Manage your personal projects
    Project {
        command: ProjectCommands,
    },
    /// Permanently delete your entire personal context (now/days/projects)
    Reset {
        /// Skip confirmation prompt
        force: bool,
        /// Output as JSON
        json: bool,
    },
    /// Idempotently ensure your personal organization exists (Chat/Perfect Days billing target)
    EnsureOrganization {
        /// Output as JSON
        json: bool,
    },
}

#[derive(Debug)]
pub enum MarkdownCommands {
    /// Parse a personal document into sections/list items (read-only)
    Analyze {
        /// Document to analyze
        target: PersonalTarget,
        /// Project ID (required when --target project)
        id: Option<String>,
        /// Local date (required when --target day)
        date: Option<String>,
        /// IANA timezone
        timezone: Option<String>,
        /// Output as JSON
        json: bool,
    },
    /// Replace the body of one Markdown section (matched by heading path)
    ReplaceSection {
        /// Document to edit
        target: PersonalTarget,
        /// Project ID (required when --target project)
        id: Option<String>,
        /// Local date (required when --target day)
        date: Option<String>,
        /// IANA timezone
        timezone: Option<String>,
        /// Heading path to the target section, outermost first (repeatable)
        heading_path: Vec<String>,
        /// New section body (Markdown)
        content_markdown: String,
        /// SHA-256 hash of the document body you last read
        base_hash: String,
        /// Preview the edit without saving it
        dry_run: bool,
        /// Output as JSON
        json: bool,
    },
    /// Replace a section if it exists, otherwise create it (matched by heading path)
    UpsertSection {
        /// Document to edit
        target: PersonalTarget,
        /// Project ID (required when --target project)
        id: Option<String>,
        /// Local date (required when --target day)
        date: Option<String>,
        /// IANA timezone
        timezone: Option<String>,
        /// Heading path to the target section, outermost first (repeatable)
        heading_path: Vec<String>,
        /// New section body (Markdown)
        content_markdown: String,
        /// SHA-256 hash of the document body you last read
        base_hash: String,
        /// Preview the edit without saving it
        dry_run: bool,
        /// Output as JSON
        json: bool,
    },
    /// Replace a list item if it exists, otherwise append it (matched by key within a section)
    UpsertListItem {
        /// Document to edit
        target: PersonalTarget,
        /// Project ID (required when --target project)
        id: Option<String>,
        /// Local date (required when --target day)
        date: Option<String>,
        /// IANA timezone
        timezone: Option<String>,
        /// Heading path to the containing section, outermost first (repeatable)
        heading_path: Vec<String>,
        /// Stable key identifying the list item within the section
        key: String,
        /// New list item Markdown (e.g. "- [ ] buy milk")
        item_markdown: String,
        /// SHA-256 hash of the document body you last read
        base_hash: String,
        /// Preview the edit without saving it
        dry_run: bool,
        /// Output as JSON
        json: bool,
    },
    /// Replace the entire document body
    ReplaceDocument {
        /// Document to edit
        target: PersonalTarget,
        /// Project ID (required when --target project)
        id: Option<String>,
        /// Local date (required when --target day)
        date: Option<String>,
        /// IANA timezone
        timezone: Option<String>,
        /// New document body (Markdown)
        body_markdown: String,
        /// SHA-256 hash of the document body you last read
        base_hash: String,
        /// Preview the edit without saving it
        dry_run: bool,
        /// Output as JSON
        json: bool,
    },
    /// Append a dated log entry under a heading (creating the heading if missing)
    AppendLogEntry {
        /// Document to edit
        target: PersonalTarget,
        /// Project ID (required when --target project)
        id: Option<String>,
        /// Local date (required when --target day)
        date: Option<String>,
        /// IANA timezone
        timezone: Option<String>,
        /// Heading under which to append the log entry
        heading: String,
        /// Log entry Markdown to append
        content_markdown: String,
        /// SHA-256 hash of the document body you last read
        base_hash: String,
        /// Preview the edit without saving it
        dry_run: bool,
        /// Output as JSON
        json: bool,
    },
}

#[derive(Debug)]
pub enum AgentSessionCommands {
    /// List your agent sessions
    List {
        /// Filter by status
        status: Option<PersonalAgentSessionStatus>,
        /// Max sessions to return (1-100, default 20)
        limit: Option<u16>,
        /// Output as JSON
        json: bool,
    },
    /// Create an agent session
    Create {
        /// Session title
        title: String,
        /// Initial status (default: active)
        status: Option<PersonalAgentSessionStatus>,
        /// Session body/notes
        body: String,
        /// Linked goal (objective) ID
        objective_id: Option<String>,
        /// Output as JSON
        json: bool,
    },
    /// Get an agent session by ID
    Get {
        /// Agent session ID
        id: String,
        /// Output as JSON
        json: bool,
    },
    /// Update an agent session
    Update {
        /// Agent session ID
        id: String,
        /// New title
        title: Option<String>,
        /// New status
        status: Option<PersonalAgentSessionStatus>,
        /// New body/notes
        body: Option<String>,
        /// New linked goal (objective) ID
        objective_id: Option<String>,
        /// Output as JSON
        json: bool,
    },
}

#[derive(Debug)]
pub enum ProjectCommands {
    /// List your personal projects
    List {
        /// Filter by status
        status: Option<PersonalProjectStatus>,
        /// Max projects to return (1-100, default 20)
        limit: Option<u16>,
        /// Output as JSON
        json: bool,
    },
    /// Create a personal project
    Create {
        /// Project title
        title: String,
        /// Initial content (Markdown)
        content: String,
        /// Initial status (default: active)
        status: Option<PersonalProjectStatus>,
        /// Output as JSON
        json: bool,
    },
    /// Get a personal project by ID
    Get {
        /// Project ID
        id: String,
        /// Output as JSON
        json: bool,
    },
    /// Update a personal project's title/status
    Update {
        /// Project ID
        id: String,
        /// New title
        title: Option<String>,
        /// New status
        status: Option<PersonalProjectStatus>,
        /// Output as JSON
        json: bool,
    },
}

impl PersonalTarget {
    /// The value the backend expects.
    pub open spec fn backend_value(self) -> Seq<char> {
        match self {
            PersonalTarget::Now => "now"@,
            PersonalTarget::Day => "day"@,
            PersonalTarget::Project => "project"@,
        }
    }

    pub fn as_str(self) -> (r: &'static str)
        ensures
            r@ == self.backend_value(),
    {
        match self {
            PersonalTarget::Now => "now",
            PersonalTarget::Day => "day",
            PersonalTarget::Project => "project",
        }
    }
}

impl PersonalAgentSessionStatus {
    /// The value the backend expects.
    pub open spec fn backend_value(self) -> Seq<char> {
        match self {
            PersonalAgentSessionStatus::Active => "active"@,
            PersonalAgentSessionStatus::Waiting => "waiting"@,
            PersonalAgentSessionStatus::Completed => "completed"@,
            PersonalAgentSessionStatus::Archived => "archived"@,
        }
    }

    pub fn as_str(self) -> (r: &'static str)
        ensures
            r@ == self.backend_value(),
    {
        match self {
            PersonalAgentSessionStatus::Active => "active",
            PersonalAgentSessionStatus::Waiting => "waiting",
            PersonalAgentSessionStatus::Completed => "completed",
            PersonalAgentSessionStatus::Archived => "archived",
        }
    }
}

impl PersonalProjectStatus {
    /// The value the backend expects.
    pub open spec fn backend_value(self) -> Seq<char> {
        match self {
            PersonalProjectStatus::Active => "active"@,
            PersonalProjectStatus::Archived => "archived"@,
        }
    }

    pub fn as_str(self) -> (r: &'static str)
        ensures
            r@ == self.backend_value(),
    {
        match self {
            PersonalProjectStatus::Active => "active",
            PersonalProjectStatus::Archived => "archived",
        }
    }
}

/// Checks that `--id`/`--date` are given when the target needs them: a
/// project target needs an ID, a day target needs a date.
pub fn ensure_target_ref(target: PersonalTarget, id: Option<&str>, date: Option<&str>) -> (r: Result<(), String>)
    ensures
        (target == PersonalTarget::Project && id is None) ==> (r matches Err(e) && e@
            == "--target project requires --id <PROJECT_ID>"@),
        (target == PersonalTarget::Day && date is None) ==> (r matches Err(e) && e@
            == "--target day requires --date <YYYY-MM-DD>"@),
        r is Ok <==> !(target == PersonalTarget::Project && id is None) && !(target
            == PersonalTarget::Day && date is None),
{
    match target {
        PersonalTarget::Project => if id.is_none() {
            return Err(owned("--target project requires --id <PROJECT_ID>"));
        },
        PersonalTarget::Day => if date.is_none() {
            return Err(owned("--target day requires --date <YYYY-MM-DD>"));
        },
        PersonalTarget::Now => {},
    }
    Ok(())
}

} // verus!
