//! Today's todos, planned todos and the goal calendar: status values,
//! argument checks and the lines that list them.

use vstd::prelude::*;
use crate::json::{json_value_of, json_valid, parse_json_arg};
use crate::goal_detail::{
    cat, dim, line2, line3, line4, line_view, plain, seg, SegModel, Segment,
};
use crate::stream_event::Style;
use crate::text::{char_count, i64_text, owned};

verus! {

/// `status` accepted by the today-todos / planned-todos rows
/// (`internal/goalexecution/usecase/today_todos_create_chat.go` validates
/// exactly these four values; distinct from `GoalStatus`, which has no
/// `COMPLETED` variant because objectives track completion via
/// `completedAt`).
#[derive(Clone, Copy, Debug, PartialEq, Eq)]
pub enum TodoStatus {
    NoneStatus,
    InProgress,
    Completed,
    Cancelled,
}

/// `action` accepted by `today todo activity`
/// (`domain/goalexecution` `TodayTodoAction*` constants).
#[derive(Clone, Copy, Debug, PartialEq, Eq)]
pub enum TodoActivityAction {
    Engage,
    Progress,
    Complete,
}

#[derive(Debug)]
pub enum TodayCommands {
    /// List today's goals (default when no subcommand is given)
    List {
        /// Organization ID (uses default if not specified)
        org: Option<String>,
        /// Date in YYYY-MM-DD (defaults to today)
        date: Option<String>,
        /// Output as JSON
        json: bool,
    },
    /// Add a new goal as today's todo
    Add {
        /// Goal title
        title: String,
        /// Parent goal ID (omit to create as root goal)
        parent: Option<String>,
        /// Description (definition of done)
        description: Option<String>,
        /// Organization ID (uses default if not specified)
        org: Option<String>,
        /// Output as JSON
        json: bool,
    },
    /// Mark a today's goal as completed
    Done {
        /// Goal ID
        id: String,
        /// Output as JSON
        json: bool,
    },
    /// Reopen a completed goal (mark as not completed)
    Reopen {
        /// Goal ID
        id: String,
        /// Output as JSON
        json: bool,
    },
    /// Change a goal's status (NOT_STARTED, IN_PROGRESS, COMPLETED, CANCELLED)
    Status {
        /// Goal ID
        id: String,
        /// Status: NOT_STARTED, IN_PROGRESS, COMPLETED, CANCELLED
        status: String,
        /// Output as JSON
        json: bool,
    },
    /// Manage "today's todo" rows (goal-linked or addness.chat-origin ad-hoc items)
    Todo {
        command: TodoCommands,
    },
    /// Manage the "material pool" of scheduled/recurring/backlog todos you can adopt into today
    Planned {
        command: PlannedCommands,
    },
    /// Read external calendar events and the goal-calendar/goal-history heatmaps
    Calendar {
        command: CalendarCommands,
    },
}

#[derive(Debug)]
pub enum TodoCommands {
    /// List today's todo rows (goal-linked + addness.chat-origin)
    List {
        /// Organization ID (uses default if not specified)
        org: Option<String>,
        /// Date in YYYY-MM-DD (defaults to today)
        date: Option<String>,
        /// Filter to a specific organization member (UUID, defaults to yourself)
        member_id: Option<String>,
        /// Output as JSON
        json: bool,
    },
    /// Add a today's todo row: pass --objective-id to add an existing goal (idempotent),
    /// or --title to create an addness.chat-origin ad-hoc item
    Add {
        /// Organization ID (uses default if not specified)
        org: Option<String>,
        /// Activity date in YYYY-MM-DD (defaults to today)
        date: Option<String>,
        /// Existing goal ID to pin as today's todo (mutually exclusive with --title)
        objective_id: Option<String>,
        /// Title for an addness.chat-origin ad-hoc item (required without --objective-id)
        title: Option<String>,
        /// Detail text (addness.chat-origin only)
        detail: Option<String>,
        /// Execution date in YYYY-MM-DD (addness.chat-origin only)
        execution_date: Option<String>,
        /// Definition of done (addness.chat-origin only)
        definition_of_done: Option<String>,
        /// Free-text current status note (addness.chat-origin only)
        current_status: Option<String>,
        /// Status (addness.chat-origin only)
        status: Option<TodoStatus>,
        /// Manual sort order (addness.chat-origin only)
        sort_order: Option<i32>,
        /// Opaque JSON metadata (addness.chat-origin only)
        chat_metadata: Option<String>,
        /// Output as JSON
        json: bool,
    },
    /// Update an addness.chat-origin today's todo row (goal-linked rows have no editable fields here)
    Update {
        /// Today's todo ID (addness.chat-origin row)
        id: String,
        /// Organization ID (uses default if not specified)
        org: Option<String>,
        /// New title
        title: Option<String>,
        /// New detail text
        detail: Option<String>,
        /// New execution date (YYYY-MM-DD); pass an empty string to clear it
        execution_date: Option<String>,
        /// New definition of done
        definition_of_done: Option<String>,
        /// New free-text current status note
        current_status: Option<String>,
        /// New status
        status: Option<TodoStatus>,
        /// New manual sort order
        sort_order: Option<i32>,
        /// New opaque JSON metadata (replaces the whole object)
        chat_metadata: Option<String>,
        /// Output as JSON
        json: bool,
    },
    /// Remove a today's todo row (accepts either an addness.chat-origin id or a goal ID)
    Rm {
        /// Today's todo ID or goal ID
        id: String,
        /// Organization ID (uses default if not specified)
        org: Option<String>,
        /// Activity date in YYYY-MM-DD, used for the goal-ID fallback (defaults to today)
        date: Option<String>,
        /// Output as JSON
        json: bool,
    },
    /// Record an engage/progress/complete activity event on an addness.chat-origin row
    Activity {
        /// Today's todo ID (addness.chat-origin row)
        id: String,
        /// Organization ID (uses default if not specified)
        org: Option<String>,
        /// Activity action
        action: TodoActivityAction,
        /// Idempotency key (defaults to a freshly generated UUID)
        idempotency_key: Option<String>,
        /// Free-text current status note to record alongside the activity
        current_status: Option<String>,
        /// Output as JSON
        json: bool,
    },
}

#[derive(Debug)]
pub enum PlannedCommands {
    /// List every planned todo in the material pool (flat, all statuses)
    List {
        /// Organization ID (uses default if not specified)
        org: Option<String>,
        /// Output as JSON
        json: bool,
    },
    /// Show the material pool split into due/overdue, recurring-today, and backlog
    Material {
        /// Organization ID (uses default if not specified)
        org: Option<String>,
        /// Date in YYYY-MM-DD (defaults to today)
        date: Option<String>,
        /// Output as JSON
        json: bool,
    },
    /// Add a planned todo: no dates → backlog; --scheduled-date → a fixed plan;
    /// --recurrence → a recurring template
    Add {
        /// Organization ID (uses default if not specified)
        org: Option<String>,
        /// Title
        title: String,
        /// Detail text
        detail: Option<String>,
        /// Definition of done
        definition_of_done: Option<String>,
        /// Free-text current status note
        current_status: Option<String>,
        /// Status
        status: Option<TodoStatus>,
        /// Fixed scheduled date in YYYY-MM-DD
        scheduled_date: Option<String>,
        /// Recurrence rule as raw JSON (same shape as `recurring_goals`)
        recurrence: Option<String>,
        /// Manual sort order
        sort_order: Option<i32>,
        /// Opaque JSON metadata
        chat_metadata: Option<String>,
        /// Output as JSON
        json: bool,
    },
    /// Update a planned todo
    Update {
        /// Planned todo ID
        id: String,
        /// Organization ID (uses default if not specified)
        org: Option<String>,
        /// New title
        title: Option<String>,
        /// New detail text
        detail: Option<String>,
        /// New definition of done
        definition_of_done: Option<String>,
        /// New free-text current status note
        current_status: Option<String>,
        /// New status
        status: Option<TodoStatus>,
        /// New scheduled date (YYYY-MM-DD); pass an empty string to un-schedule it
        scheduled_date: Option<String>,
        /// New recurrence rule as raw JSON
        recurrence: Option<String>,
        /// Clear the recurrence rule (mutually exclusive with --recurrence)
        clear_recurrence: bool,
        /// New manual sort order
        sort_order: Option<i32>,
        /// New opaque JSON metadata (replaces the whole object)
        chat_metadata: Option<String>,
        /// Output as JSON
        json: bool,
    },
    /// Remove a planned todo from the material pool
    Rm {
        /// Planned todo ID
        id: String,
        /// Organization ID (uses default if not specified)
        org: Option<String>,
        /// Output as JSON
        json: bool,
    },
    /// Adopt a planned todo into today's todos (non-recurring items are consumed)
    Adopt {
        /// Planned todo ID
        id: String,
        /// Organization ID (uses default if not specified)
        org: Option<String>,
        /// Output as JSON
        json: bool,
    },
}

#[derive(Debug)]
pub enum CalendarCommands {
    /// List today's connected external calendar events
    Events {
        /// Organization ID (uses default if not specified)
        org: Option<String>,
        /// Date in YYYY-MM-DD (defaults to today)
        date: Option<String>,
        /// Output as JSON
        json: bool,
    },
    /// Mark an external calendar event completed/incomplete for today's todo tracking
    Complete {
        /// Organization ID (uses default if not specified)
        org: Option<String>,
        /// Activity date in YYYY-MM-DD
        date: String,
        /// Calendar event ID
        event_id: String,
        /// Event title (for activity-log context)
        event_title: Option<String>,
        /// Calendar name (for activity-log context)
        calendar_name: Option<String>,
        /// Event start time (RFC3339)
        event_start: String,
        /// Mark as completed (pass --completed=false to un-complete)
        completed: bool,
        /// Output as JSON
        json: bool,
    },
    /// Show the goal-completion heatmap for a date range
    GoalCalendar {
        /// Organization ID (uses default if not specified)
        org: Option<String>,
        /// Range start in YYYY-MM-DD
        from: String,
        /// Range end in YYYY-MM-DD (max 366 days after --from)
        to: String,
        /// Filter to a specific organization member (UUID)
        member_id: Option<String>,
        /// Include per-day completed-goal counts
        include_counts: bool,
        /// Output as JSON
        json: bool,
    },
    /// Show the goals that were on a past date's "today" list
    GoalHistory {
        /// Organization ID (uses default if not specified)
        org: Option<String>,
        /// Date in YYYY-MM-DD
        date: String,
        /// Filter to a specific organization member (UUID)
        member_id: Option<String>,
        /// Output as JSON
        json: bool,
    },
}

impl TodoStatus {
    /// The value the backend expects.
    pub open spec fn backend_value(self) -> Seq<char> {
        match self {
            TodoStatus::NoneStatus => "NONE"@,
            TodoStatus::InProgress => "IN_PROGRESS"@,
            TodoStatus::Completed => "COMPLETED"@,
            TodoStatus::Cancelled => "CANCELLED"@,
        }
    }

    pub fn as_str(self) -> (r: &'static str)
        ensures
            r@ == self.backend_value(),
    {
        match self {
            TodoStatus::NoneStatus => "NONE",
            TodoStatus::InProgress => "IN_PROGRESS",
            TodoStatus::Completed => "COMPLETED",
            TodoStatus::Cancelled => "CANCELLED",
        }
    }
}

impl TodoActivityAction {
    /// The value the backend expects.
    pub open spec fn backend_value(self) -> Seq<char> {
        match self {
            TodoActivityAction::Engage => "ENGAGE"@,
            TodoActivityAction::Progress => "PROGRESS"@,
            TodoActivityAction::Complete => "COMPLETE"@,
        }
    }

    pub fn as_str(self) -> (r: &'static str)
        ensures
            r@ == self.backend_value(),
    {
        match self {
            TodoActivityAction::Engage => "ENGAGE",
            TodoActivityAction::Progress => "PROGRESS",
            TodoActivityAction::Complete => "COMPLETE",
        }
    }
}

/// `today todo add` takes exactly one of `--objective-id` (pin an existing
/// goal) and `--title` (create an ad-hoc item).
pub fn validate_todo_add_args(objective_id: Option<&str>, title: Option<&str>) -> (r: Result<(), String>)
    ensures
        r is Ok <==> (objective_id is Some) != (title is Some),
        r matches Err(e) ==> e@ == (if objective_id is None {
            "Specify either --objective-id (pin an existing goal) or --title (create an ad-hoc item)"@
        } else {
            "--objective-id and --title are mutually exclusive"@
        }),
{
    if objective_id.is_none() && title.is_none() {
        return Err(owned("Specify either --objective-id (pin an existing goal) or --title (create an ad-hoc item)"));
    }
    if objective_id.is_some() && title.is_some() {
        return Err(owned("--objective-id and --title are mutually exclusive"));
    }
    Ok(())
}

/// `--recurrence` and `--clear-recurrence` cannot be combined.
pub fn validate_planned_update_args(recurrence: Option<&str>, clear_recurrence: bool) -> (r: Result<(), String>)
    ensures
        r is Ok <==> !(recurrence is Some && clear_recurrence),
        r matches Err(e) ==> e@ == "--recurrence and --clear-recurrence are mutually exclusive"@,
{
    if recurrence.is_some() && clear_recurrence {
        return Err(owned("--recurrence and --clear-recurrence are mutually exclusive"));
    }
    Ok(())
}

/// `--chat-metadata`: any JSON value, refused where it does not parse.
pub fn parse_chat_metadata(raw: &str) -> (r: Result<serde_json::Value, String>)
    ensures
        r is Ok <==> json_valid(raw@),
        r matches Ok(v) ==> v == json_value_of(raw@),
        r matches Err(e) ==> e@ == "--chat-metadata must be valid JSON"@,
{
    proof {
        reveal_strlit("--chat-metadata");
        reveal_strlit(" must be valid JSON");
        reveal_strlit("--chat-metadata must be valid JSON");
        assert("--chat-metadata"@ + " must be valid JSON"@ =~= "--chat-metadata must be valid JSON"@);
    }
    parse_json_arg(raw, "--chat-metadata")
}

// ---------------------------------------------------------------------------
// Listing lines
// ---------------------------------------------------------------------------

/// A planned todo as the material pool lists it.
#[derive(Debug)]
pub struct PlannedTodoView {
    pub id: String,
    pub title: String,
    pub scheduled_date: String,
    pub recurrence_text: String,
    pub status: String,
}

/// When a planned todo is due: its date, else its recurrence, else
/// `backlog`.
pub open spec fn planned_schedule(item: PlannedTodoView) -> Seq<char> {
    if item.scheduled_date@.len() > 0 {
        item.scheduled_date@
    } else if item.recurrence_text@.len() > 0 {
        item.recurrence_text@
    } else {
        "backlog"@
    }
}

/// `<title> [<schedule>] <id> (<status>)`, the ID dimmed and the status
/// part left out when there is no status.
pub open spec fn planned_line(item: PlannedTodoView) -> Seq<SegModel> {
    seq![
        plain(item.title@ + " ["@ + planned_schedule(item) + "] "@),
        dim(item.id@),
        plain(
            " "@ + if item.status@.len() == 0 {
                Seq::empty()
            } else {
                "("@ + item.status@ + ")"@
            },
        ),
    ]
}

pub fn planned_todo_line(item: &PlannedTodoView) -> (r: Vec<Segment>)
    ensures
        line_view(r) == planned_line(*item),
{
    let schedule = if char_count(item.scheduled_date.as_str()) > 0 {
        owned(item.scheduled_date.as_str())
    } else if char_count(item.recurrence_text.as_str()) > 0 {
        owned(item.recurrence_text.as_str())
    } else {
        owned("backlog")
    };
    let mut first = cat(item.title.as_str(), " [");
    first.append(schedule.as_str());
    first.append("] ");
    let mut last = owned(" ");
    if char_count(item.status.as_str()) > 0 {
        last.append("(");
        last.append(item.status.as_str());
        last.append(")");
    }
    assert(first@ =~= item.title@ + " ["@ + planned_schedule(*item) + "] "@);
    assert(last@ =~= " "@ + if item.status@.len() == 0 {
        Seq::<char>::empty()
    } else {
        "("@ + item.status@ + ")"@
    });
    line3(
        seg(first, Style::Plain),
        seg(owned(item.id.as_str()), Style::Dimmed),
        seg(last, Style::Plain),
    )
}

/// A row of today's todos.
#[derive(Debug)]
pub struct TodayTodoView {
    pub id: Option<String>,
    pub title: Option<String>,
    pub status: Option<String>,
    pub objective_id: Option<String>,
}

/// The text of an optional field, or `fallback`.
pub open spec fn or_text(o: Option<String>, fallback: Seq<char>) -> Seq<char> {
    match o {
        Some(t) => t@,
        None => fallback,
    }
}

/// A chat-made todo shows its title, status (`NONE` without one), ID and
/// `(chat)`; a pinned goal shows the goal's ID and `(goal)`.
pub open spec fn today_line(todo: TodayTodoView) -> Seq<SegModel> {
    match todo.title {
        Some(title) => seq![
            plain(title@ + " ["@ + or_text(todo.status, "NONE"@) + "] "@),
            dim(or_text(todo.id, Seq::empty())),
            plain(" "@),
            dim("(chat)"@),
        ],
        None => seq![plain(or_text(todo.objective_id, Seq::empty()) + " "@), dim("(goal)"@)],
    }
}

fn text_or(o: &Option<String>, fallback: &str) -> (r: String)
    ensures
        r@ == or_text(*o, fallback@),
{
    match o {
        Some(t) => owned(t.as_str()),
        None => owned(fallback),
    }
}

pub fn today_todo_line(todo: &TodayTodoView) -> (r: Vec<Segment>)
    ensures
        line_view(r) == today_line(*todo),
{
    proof {
        reveal_strlit("");
        assert(""@ =~= Seq::<char>::empty());
    }
    match &todo.title {
        Some(title) => {
            let mut first = cat(title.as_str(), " [");
            let status = text_or(&todo.status, "NONE");
            first.append(status.as_str());
            first.append("] ");
            assert(first@ =~= title@ + " ["@ + or_text(todo.status, "NONE"@) + "] "@);
            line4(
                seg(first, Style::Plain),
                seg(text_or(&todo.id, ""), Style::Dimmed),
                seg(owned(" "), Style::Plain),
                seg(owned("(chat)"), Style::Dimmed),
            )
        },
        None => {
            let mut first = text_or(&todo.objective_id, "");
            first.append(" ");
            assert(first@ =~= or_text(todo.objective_id, Seq::empty()) + " "@);
            line2(seg(first, Style::Plain), seg(owned("(goal)"), Style::Dimmed))
        },
    }
}

/// How a calendar day is marked: `[x]` when a goal was completed, `[ ]`
/// when goals were due, `[*]` when the streak was frozen, else `[.]`.
pub open spec fn calendar_mark(completed_goal_exists: bool, goal_exists: bool, frozen: bool) -> Seq<
    char,
> {
    if completed_goal_exists {
        "[x]"@
    } else if goal_exists {
        "[ ]"@
    } else if frozen {
        "[*]"@
    } else {
        "[.]"@
    }
}

/// `<year>-<month>-<day> <mark>`, with ` (<n>)` for completed goals.
pub open spec fn calendar_day_text(
    year: Seq<char>,
    month: Seq<char>,
    day: Seq<char>,
    completed_goal_exists: bool,
    goal_exists: bool,
    frozen: bool,
    completed_count: i64,
) -> Seq<char> {
    year + "-"@ + month + "-"@ + day + " "@ + calendar_mark(completed_goal_exists, goal_exists, frozen)
        + if completed_count > 0 {
        " ("@ + crate::text::int_text(completed_count as int) + ")"@
    } else {
        Seq::empty()
    }
}

pub fn calendar_day_line(
    year: &str,
    month: &str,
    day: &str,
    completed_goal_exists: bool,
    goal_exists: bool,
    frozen: bool,
    completed_count: i64,
) -> (r: String)
    ensures
        r@ == calendar_day_text(
            year@,
            month@,
            day@,
            completed_goal_exists,
            goal_exists,
            frozen,
            completed_count,
        ),
{
    let mut s = cat(year, "-");
    s.append(month);
    s.append("-");
    s.append(day);
    s.append(" ");
    let mark = if completed_goal_exists {
        "[x]"
    } else if goal_exists {
        "[ ]"
    } else if frozen {
        "[*]"
    } else {
        "[.]"
    };
    s.append(mark);
    if completed_count > 0 {
        s.append(" (");
        let n = i64_text(completed_count);
        s.append(n.as_str());
        s.append(")");
    }
    s
}

} // verus!
