//! Goals: text arguments, due dates, recurring schedules, status changes,
//! list filters, related-data errors and the goal tree.

use vstd::prelude::*;
use vstd::multiset::Multiset;
use crate::text::{
    chars_of, contains_text, copy_opt, csv_items, csv_split, find_char, has_infix, i64_text,
    index_of, int_text, opt_view, owned, parse_i32, parse_i32_spec, str_eq, to_lower, to_upper,
    unicode_lower, unicode_upper, views, join_with, ascii_lower, to_ascii_lower,
};

verus! {

#[derive(Debug)]
pub enum GoalCommands {
    /// List goals in the organization tree
    List {
        /// Organization ID (uses default if not specified)
        org: Option<String>,
        /// Tree depth (default: 3)
        depth: usize,
        /// Filter by owner name (use "me" for yourself)
        assigned_to: Option<String>,
        /// Filter by status: NOT_STARTED, IN_PROGRESS, COMPLETED, CANCELLED
        status: Option<String>,
        /// Output as JSON
        json: bool,
    },
    /// Get a goal's details
    Get {
        /// Goal ID
        id: String,
        /// Output as JSON
        json: bool,
        /// With deliverables information
        with_deliverable: bool,
        /// With comments information
        with_comment: bool,
        /// Fail when child deliverables/comments cannot be fetched
        strict_related_fetch: bool,
    },
    /// List children of a goal
    Children {
        /// Goal ID
        id: String,
        /// Max number of children to return (default: 20)
        limit: usize,
        /// Offset for pagination
        offset: usize,
        /// Output as JSON
        json: bool,
    },
    /// Show subtree of a goal
    Tree {
        /// Goal ID
        id: String,
        /// Output as JSON
        json: bool,
    },
    /// Get sibling goals with their deliverables and descriptions
    Siblings {
        /// Goal ID
        id: String,
        /// Max number of siblings to return (default: 50)
        limit: usize,
        /// Output as JSON
        json: bool,
        /// Fail when sibling deliverables cannot be fetched
        strict_related_fetch: bool,
    },
    /// Search goals by keyword
    Search {
        /// Search query
        query: String,
        /// Output as JSON
        json: bool,
    },
    /// Create a new goal
    Create {
        /// Goal title
        title: String,
        /// Parent goal ID (omit to create as root goal)
        parent: Option<String>,
        /// Organization ID (uses default if not specified)
        org: Option<String>,
        /// Description
        description: Option<String>,
        /// Output as JSON
        json: bool,
    },
    /// Update a goal's status, title, definition of done, body, or due date
    Update {
        /// Goal ID
        id: String,
        /// Status: NOT_STARTED, IN_PROGRESS, COMPLETED, CANCELLED
        status: Option<String>,
        /// Title
        title: Option<String>,
        /// Description (definition of done) - replaces the current value
        description: Option<String>,
        /// Description from a file path (alternative to --description)
        description_file: Option<String>,
        /// Body/current state - replaces the current value
        body: Option<String>,
        /// Body/current state from a file path (alternative to --body)
        body_file: Option<String>,
        /// Due date/current deadline (YYYY-MM-DD or RFC3339) - replaces the current value
        due_date: Option<String>,
        /// Clear the current due date
        clear_due_date: bool,
        /// Output as JSON
        json: bool,
    },
    /// Delete a goal (soft delete)
    Delete {
        /// Goal ID
        id: String,
        /// Skip confirmation prompt
        force: bool,
        /// Output as JSON
        json: bool,
    },
    /// Archive a goal (move out of active tree, keep data)
    Archive {
        /// Goal ID
        id: String,
        /// Output as JSON
        json: bool,
    },
    /// Unarchive (restore from archive) a goal
    Unarchive {
        /// Goal ID
        id: String,
        /// Output as JSON
        json: bool,
    },
    /// Restore a soft-deleted goal
    Restore {
        /// Goal ID
        id: String,
        /// Output as JSON
        json: bool,
    },
    /// Duplicate a goal under a specified parent
    Duplicate {
        /// Source goal ID
        id: String,
        /// Parent goal ID where the duplicate will be placed
        parent: String,
        /// Output as JSON
        json: bool,
    },
    /// Move a goal under a different parent (or to root with --root)
    Move {
        /// Goal ID to move
        id: String,
        /// New parent goal ID
        parent: Option<String>,
        /// Move to root (clears parent)
        root: bool,
        /// Output as JSON
        json: bool,
    },
    /// Manage public share links for a goal
    Share {
        command: ShareCommands,
    },
    /// Manage goal aliases (link an existing goal under another parent)
    Alias {
        command: AliasCommands,
    },
    /// Manage a goal's recurring (repeating) schedule
    Recurring {
        command: RecurringCommands,
    },
}

#[derive(Debug)]
pub enum ShareCommands {
    /// Create (or fetch existing) public share link
    Create {
        /// Goal ID
        id: String,
        /// Output as JSON
        json: bool,
    },
    /// Revoke the public share link
    Revoke {
        /// Goal ID
        id: String,
        /// Skip confirmation prompt
        force: bool,
    },
}

#[derive(Debug)]
pub enum AliasCommands {
    /// Add an alias under a parent goal (links an existing goal)
    Add {
        /// Parent goal ID (where the alias appears)
        parent_id: String,
        /// Target goal ID to reference
        target: String,
        /// Display order (1 or greater; backend rejects 0)
        order: i32,
        /// Output as JSON
        json: bool,
    },
    /// Remove an alias
    Rm {
        /// Parent goal ID
        parent_id: String,
        /// Alias ID
        alias_id: String,
        /// Skip confirmation prompt
        force: bool,
    },
    /// Reorder aliases under a parent goal
    Reorder {
        /// Parent goal ID
        parent_id: String,
        /// Comma-separated alias IDs in the desired order
        order: String,
    },
}

#[derive(Debug)]
pub enum RecurringCommands {
    /// Get the recurring schedule configured for a goal
    Get {
        /// Goal ID
        id: String,
        /// Output as JSON
        json: bool,
    },
    /// Create or update the recurring schedule for a goal
    SetValue {
        /// Goal ID
        id: String,
        /// Basic pattern: DAILY, WEEKLY, MONTHLY, WEEKDAYS (mutually exclusive with custom options below)
        pattern: Option<String>,
        /// Custom recurrence type: DAILY, WEEKLY, MONTHLY, YEARLY
        recurrence_type: Option<String>,
        /// Repeat every N days/weeks/months/years (required for custom recurrence)
        interval: Option<i32>,
        /// Comma-separated days of week (MONDAY,TUESDAY,...). Required when --recurrence-type is WEEKLY.
        days_of_week: Option<String>,
        /// Comma-separated days of month (1-31). One option for MONTHLY.
        days_of_month: Option<String>,
        /// End date (YYYY-MM-DD or RFC3339) after which the schedule stops
        end_date: Option<String>,
        /// Use the last day of the month (MONTHLY only)
        last_day: bool,
        /// Nth week of the month (1-5), used together with --days-of-week for MONTHLY
        nth_week: Option<i32>,
        /// Count the interval from the completion date instead of the schedule date
        repeat_from_completion: bool,
        /// Output as JSON
        json: bool,
    },
    /// Remove the recurring schedule from a goal
    Remove {
        /// Goal ID
        id: String,
        /// Skip confirmation prompt
        force: bool,
        /// Output as JSON
        json: bool,
    },
}

// ---------------------------------------------------------------------------
// Aliases
// ---------------------------------------------------------------------------

/// The alias IDs of `alias reorder --order`, in order: the trimmed,
/// non-empty items of the comma-separated list, at least one.
pub fn alias_order(order: &str) -> (r: Result<Vec<String>, String>)
    ensures
        match r {
            Ok(v) => views(v@) == csv_items(order@) && v@.len() > 0,
            Err(e) => csv_items(order@).len() == 0
                && e@ == "--order must contain at least one alias ID"@,
        },
{
    let ids = csv_split(order);
    if ids.len() == 0 {
        return Err(owned("--order must contain at least one alias ID"));
    }
    Ok(ids)
}

// ---------------------------------------------------------------------------
// Text arguments
// ---------------------------------------------------------------------------

/// Where a text given as an inline flag or a file flag comes from.
#[derive(Debug)]
pub enum TextArg {
    /// The text given inline.
    Inline(String),
    /// The file at this path.
    File(String),
}

/// Where `--description`/`--description-file` style text is read from: at
/// most one of the two may be given.
pub fn read_text_arg(
    inline: Option<&String>,
    file: Option<&String>,
    inline_flag: &str,
    file_flag: &str,
) -> (r: Result<Option<TextArg>, String>)
    ensures
        match (inline, file) {
            (Some(s), None) => r matches Ok(Some(TextArg::Inline(t))) && t@ == s@,
            (None, Some(p)) => r matches Ok(Some(TextArg::File(t))) && t@ == p@,
            (Some(_), Some(_)) => r matches Err(e) && e@ == "Specify only one of "@ + inline_flag@
                + " or "@ + file_flag@,
            (None, None) => r matches Ok(None),
        },
{
    match (inline, file) {
        (Some(s), None) => Ok(Some(TextArg::Inline(s.clone()))),
        (None, Some(p)) => Ok(Some(TextArg::File(p.clone()))),
        (Some(_), Some(_)) => {
            let mut e = owned("Specify only one of ");
            e.append(inline_flag);
            e.append(" or ");
            e.append(file_flag);
            Err(e)
        },
        (None, None) => Ok(None),
    }
}

// ---------------------------------------------------------------------------
// Dates
// ---------------------------------------------------------------------------

/// Whether chrono's `DateTime::parse_from_rfc3339` accepts the text.
pub uninterp spec fn rfc3339_accepted(s: Seq<char>) -> bool;

/// `chrono::DateTime::parse_from_rfc3339(s).is_ok()`. Trusted: the answer is
/// named `rfc3339_accepted` of the text.
#[verifier::external_body]
fn accepts_rfc3339(s: &str) -> (b: bool)
    ensures
        b == rfc3339_accepted(s@),
{
    chrono::DateTime::parse_from_rfc3339(s).is_ok()
}

/// The calendar date that chrono's `NaiveDate::parse_from_str(s, "%Y-%m-%d")`
/// reads from the text, written back with the same format; `None` where the
/// parse fails.
pub uninterp spec fn ymd_date_text(s: Seq<char>) -> Option<Seq<char>>;

/// `NaiveDate::parse_from_str(s, "%Y-%m-%d")`, the date rendered with
/// `format("%Y-%m-%d")`. Trusted: the result is named `ymd_date_text` of the
/// text.
#[verifier::external_body]
fn parse_ymd(s: &str) -> (r: Option<String>)
    ensures
        opt_view(r) == ymd_date_text(s@),
        r matches Some(d) ==> (d@.len() == 10 ==> rfc3339_accepted(d@ + "T00:00:00Z"@)),
{
    chrono::NaiveDate::parse_from_str(s, "%Y-%m-%d").ok().map(|d| d.format("%Y-%m-%d").to_string())
}

/// The error for a date that is neither `YYYY-MM-DD` nor RFC 3339.
pub open spec fn due_date_error() -> Seq<char> {
    "--due-date must be YYYY-MM-DD or RFC3339"@
}

/// A due date as the API takes it: text with a `T` must be valid RFC 3339
/// and is kept as it is; otherwise it must be a `YYYY-MM-DD` date, which
/// becomes midnight UTC of that day.
pub open spec fn due_date_spec(input: Seq<char>) -> Result<Seq<char>, Seq<char>> {
    if index_of(input, 'T') is Some {
        if rfc3339_accepted(input) {
            Ok(input)
        } else {
            Err(due_date_error())
        }
    } else {
        match ymd_date_text(input) {
            Some(d) => Ok(d + "T00:00:00Z"@),
            None => Err(due_date_error()),
        }
    }
}

pub fn normalize_due_date(input: &str) -> (r: Result<String, String>)
    ensures
        match due_date_spec(input@) {
            Ok(d) => r matches Ok(x) && x@ == d,
            Err(e) => r matches Err(x) && x@ == e,
        },
        r matches Ok(x) ==> ((index_of(input@, 'T') is Some || x@.len() == 20) ==> due_date_spec(
            x@,
        ) == Ok::<Seq<char>, Seq<char>>(x@)),
{
    let v = chars_of(input);
    if find_char(&v, 'T').is_some() {
        if accepts_rfc3339(input) {
            return Ok(owned(input));
        }
        return Err(owned("--due-date must be YYYY-MM-DD or RFC3339"));
    }
    match parse_ymd(input) {
        Some(mut d) => {
            let ghost d0 = d@;
            d.append("T00:00:00Z");
            proof {
                reveal_strlit("T00:00:00Z");
                assert(d@[d0.len() as int] == 'T');
                crate::text::lemma_index_of_occurs(d@, 'T', d0.len() as int);
            }
            Ok(d)
        },
        None => Err(owned("--due-date must be YYYY-MM-DD or RFC3339")),
    }
}

// ---------------------------------------------------------------------------
// Recurring schedules
// ---------------------------------------------------------------------------

pub open spec fn is_weekday_name(s: Seq<char>) -> bool {
    s == "MONDAY"@ || s == "TUESDAY"@ || s == "WEDNESDAY"@ || s == "THURSDAY"@ || s == "FRIDAY"@
        || s == "SATURDAY"@ || s == "SUNDAY"@
}

pub open spec fn invalid_day_error(s: Seq<char>) -> Seq<char> {
    "--days-of-week contains an invalid day: '"@ + s
        + "'. Use MONDAY, TUESDAY, WEDNESDAY, THURSDAY, FRIDAY, SATURDAY, or SUNDAY."@
}

/// The upper-cased day names of `items`, or the error for the first item
/// that is not a day name.
pub open spec fn days_of_week_spec(items: Seq<Seq<char>>) -> Result<Seq<Seq<char>>, Seq<char>>
    decreases items.len(),
{
    if items.len() == 0 {
        Ok(Seq::empty())
    } else {
        match days_of_week_spec(items.drop_last()) {
            Err(e) => Err(e),
            Ok(done) => if is_weekday_name(unicode_upper(items.last())) {
                Ok(done.push(unicode_upper(items.last())))
            } else {
                Err(invalid_day_error(items.last()))
            },
        }
    }
}

proof fn lemma_days_of_week_error_sticks(items: Seq<Seq<char>>, i: int)
    requires
        0 <= i <= items.len(),
        days_of_week_spec(items.take(i)) is Err,
    ensures
        days_of_week_spec(items) == days_of_week_spec(items.take(i)),
    decreases items.len() - i,
{
    if i < items.len() {
        assert(items.drop_last().take(i) =~= items.take(i));
        lemma_days_of_week_error_sticks(items.drop_last(), i);
    } else {
        assert(items.take(i) =~= items);
    }
}

fn is_weekday(s: &str) -> (b: bool)
    ensures
        b == is_weekday_name(s@),
{
    str_eq(s, "MONDAY") || str_eq(s, "TUESDAY") || str_eq(s, "WEDNESDAY") || str_eq(s, "THURSDAY")
        || str_eq(s, "FRIDAY") || str_eq(s, "SATURDAY") || str_eq(s, "SUNDAY")
}

/// `--days-of-week`: the comma-separated day names, trimmed, upper-cased and
/// checked.
pub fn parse_days_of_week(csv: &str) -> (r: Result<Vec<String>, String>)
    ensures
        match days_of_week_spec(csv_items(csv@)) {
            Ok(ds) => r matches Ok(v) && views(v@) == ds,
            Err(e) => r matches Err(x) && x@ == e,
        },
{
    let items = csv_split(csv);
    let mut out: Vec<String> = Vec::new();
    let mut i: usize = 0;
    assert(views(items@).take(0) =~= Seq::<Seq<char>>::empty());
    assert(views(out@) =~= Seq::<Seq<char>>::empty());
    while i < items.len()
        invariant
            i <= items.len(),
            views(items@) == csv_items(csv@),
            days_of_week_spec(views(items@).take(i as int)) == Ok::<Seq<Seq<char>>, Seq<char>>(
                views(out@),
            ),
        decreases items.len() - i,
    {
        assert(views(items@).take(i + 1).drop_last() =~= views(items@).take(i as int));
        assert(views(items@).take(i + 1).last() == items@[i as int]@);
        let day = to_upper(items[i].as_str());
        if is_weekday(day.as_str()) {
            let ghost before = views(out@);
            out.push(day);
            assert(views(out@) =~= before.push(day@));
        } else {
            let mut e = owned("--days-of-week contains an invalid day: '");
            e.append(items[i].as_str());
            e.append("'. Use MONDAY, TUESDAY, WEDNESDAY, THURSDAY, FRIDAY, SATURDAY, or SUNDAY.");
            proof {
                lemma_days_of_week_error_sticks(views(items@), i + 1);
            }
            return Err(e);
        }
        i = i + 1;
    }
    assert(views(items@).take(items.len() as int) =~= views(items@));
    Ok(out)
}

pub open spec fn days_of_month_error(shown: Seq<char>) -> Seq<char> {
    "--days-of-month must contain integers between 1 and 31, got '"@ + shown + "'"@
}

/// The days of `items` as integers, or the error for the first item that is
/// not an integer between 1 and 31.
pub open spec fn days_of_month_spec(items: Seq<Seq<char>>) -> Result<Seq<i32>, Seq<char>>
    decreases items.len(),
{
    if items.len() == 0 {
        Ok(Seq::empty())
    } else {
        match days_of_month_spec(items.drop_last()) {
            Err(e) => Err(e),
            Ok(done) => match parse_i32_spec(items.last()) {
                None => Err(days_of_month_error(items.last())),
                Some(d) => if 1 <= d <= 31 {
                    Ok(done.push(d))
                } else {
                    Err(days_of_month_error(int_text(d as int)))
                },
            },
        }
    }
}

proof fn lemma_days_of_month_error_sticks(items: Seq<Seq<char>>, i: int)
    requires
        0 <= i <= items.len(),
        days_of_month_spec(items.take(i)) is Err,
    ensures
        days_of_month_spec(items) == days_of_month_spec(items.take(i)),
    decreases items.len() - i,
{
    if i < items.len() {
        assert(items.drop_last().take(i) =~= items.take(i));
        lemma_days_of_month_error_sticks(items.drop_last(), i);
    } else {
        assert(items.take(i) =~= items);
    }
}

/// `--days-of-month`: the comma-separated days, each an integer from 1 to 31.
pub fn parse_days_of_month(csv: &str) -> (r: Result<Vec<i32>, String>)
    ensures
        match days_of_month_spec(csv_items(csv@)) {
            Ok(ds) => r matches Ok(v) && v@ == ds,
            Err(e) => r matches Err(x) && x@ == e,
        },
{
    let items = csv_split(csv);
    let mut out: Vec<i32> = Vec::new();
    let mut i: usize = 0;
    assert(views(items@).take(0) =~= Seq::<Seq<char>>::empty());
    while i < items.len()
        invariant
            i <= items.len(),
            views(items@) == csv_items(csv@),
            days_of_month_spec(views(items@).take(i as int)) == Ok::<Seq<i32>, Seq<char>>(out@),
        decreases items.len() - i,
    {
        assert(views(items@).take(i + 1).drop_last() =~= views(items@).take(i as int));
        assert(views(items@).take(i + 1).last() == items@[i as int]@);
        match parse_i32(items[i].as_str()) {
            None => {
                let mut e = owned("--days-of-month must contain integers between 1 and 31, got '");
                e.append(items[i].as_str());
                e.append("'");
                proof {
                    lemma_days_of_month_error_sticks(views(items@), i + 1);
                }
                return Err(e);
            },
            Some(d) => {
                if 1 <= d && d <= 31 {
                    out.push(d);
                } else {
                    let mut e = owned("--days-of-month must contain integers between 1 and 31, got '");
                    let shown = i64_text(d as i64);
                    e.append(shown.as_str());
                    e.append("'");
                    proof {
                        lemma_days_of_month_error_sticks(views(items@), i + 1);
                    }
                    return Err(e);
                }
            },
        }
        i = i + 1;
    }
    assert(views(items@).take(items.len() as int) =~= views(items@));
    Ok(out)
}

/// The day lists of a custom recurrence keep each listed item, in order:
/// an accepted `--days-of-week` list has one upper-cased name per item, and
/// it is accepted exactly when every item names a day; an accepted
/// `--days-of-month` list has one number per item, the number the item
/// spells.
pub proof fn day_lists_keep_each_item(items: Seq<Seq<char>>)
    ensures
        days_of_week_spec(items) is Ok <==> forall|i: int|
            0 <= i < items.len() ==> is_weekday_name(unicode_upper(#[trigger] items[i])),
        days_of_week_spec(items) matches Ok(ds) ==> ds.len() == items.len() && forall|i: int|
            0 <= i < items.len() ==> #[trigger] ds[i] == unicode_upper(items[i]),
        days_of_month_spec(items) matches Ok(ds) ==> ds.len() == items.len() && forall|i: int|
            0 <= i < items.len() ==> parse_i32_spec(#[trigger] items[i]) == Some(ds[i]),
    decreases items.len(),
{
    if items.len() > 0 {
        let init = items.drop_last();
        day_lists_keep_each_item(init);
        assert forall|i: int| 0 <= i < init.len() implies #[trigger] init[i] == items[i] by {}
        if (forall|i: int| 0 <= i < items.len() ==> is_weekday_name(unicode_upper(#[trigger] items[i]))) {
            assert(is_weekday_name(unicode_upper(items[items.len() - 1])));
            assert forall|i: int| 0 <= i < init.len() implies is_weekday_name(
                unicode_upper(#[trigger] init[i]),
            ) by {
                assert(is_weekday_name(unicode_upper(items[i])));
            }
        }
        if days_of_week_spec(items) is Ok {
            assert forall|i: int| 0 <= i < items.len() implies is_weekday_name(
                unicode_upper(#[trigger] items[i]),
            ) by {
                if i < init.len() {
                    assert(is_weekday_name(unicode_upper(init[i])));
                }
            }
        }
        if let Ok(ds) = days_of_month_spec(items) {
            let prev = days_of_month_spec(init)->Ok_0;
            assert(ds == prev.push(ds[ds.len() - 1]));
            assert forall|i: int| 0 <= i < items.len() implies parse_i32_spec(#[trigger] items[i])
                == Some(ds[i]) by {
                if i < init.len() {
                    assert(parse_i32_spec(init[i]) == Some(prev[i]));
                }
            }
        }
    }
}

/// The body of `PUT /goals/{id}/recurring`.
#[derive(Debug)]
pub struct RecurringGoalRequest {
    pub pattern: Option<String>,
    pub recurrence_type: Option<String>,
    pub interval: Option<i32>,
    pub days_of_week: Vec<String>,
    pub days_of_month: Vec<i32>,
    pub end_date: Option<String>,
    pub is_last_day: Option<bool>,
    pub nth_week: Option<i32>,
    pub repeat_from_completion: Option<bool>,
}

/// What a recurring-schedule request says, as text and numbers.
pub struct RecurringRequestModel {
    pub pattern: Option<Seq<char>>,
    pub recurrence_type: Option<Seq<char>>,
    pub interval: Option<i32>,
    pub days_of_week: Seq<Seq<char>>,
    pub days_of_month: Seq<i32>,
    pub end_date: Option<Seq<char>>,
    pub is_last_day: Option<bool>,
    pub nth_week: Option<i32>,
    pub repeat_from_completion: Option<bool>,
}

impl View for RecurringGoalRequest {
    type V = RecurringRequestModel;

    open spec fn view(&self) -> RecurringRequestModel {
        RecurringRequestModel {
            pattern: opt_view(self.pattern),
            recurrence_type: opt_view(self.recurrence_type),
            interval: self.interval,
            days_of_week: views(self.days_of_week@),
            days_of_month: self.days_of_month@,
            end_date: opt_view(self.end_date),
            is_last_day: self.is_last_day,
            nth_week: self.nth_week,
            repeat_from_completion: self.repeat_from_completion,
        }
    }
}

pub open spec fn is_basic_pattern(p: Seq<char>) -> bool {
    p == "DAILY"@ || p == "WEEKLY"@ || p == "MONTHLY"@ || p == "WEEKDAYS"@
}

pub open spec fn is_recurrence_type(t: Seq<char>) -> bool {
    t == "DAILY"@ || t == "WEEKLY"@ || t == "MONTHLY"@ || t == "YEARLY"@
}

pub open spec fn combined_error() -> Seq<char> {
    "--pattern cannot be combined with custom recurrence options (--recurrence-type, --interval, --days-of-week, --days-of-month, --end-date, --last-day, --nth-week, --repeat-from-completion)."@
}

pub open spec fn nothing_error() -> Seq<char> {
    "Specify either --pattern <DAILY|WEEKLY|MONTHLY|WEEKDAYS> or custom recurrence options starting with --recurrence-type <DAILY|WEEKLY|MONTHLY|YEARLY>."@
}

pub open spec fn pattern_error() -> Seq<char> {
    "--pattern must be one of: DAILY, WEEKLY, MONTHLY, WEEKDAYS"@
}

pub open spec fn type_required_error() -> Seq<char> {
    "--recurrence-type is required for a custom recurrence (DAILY, WEEKLY, MONTHLY, YEARLY)."@
}

pub open spec fn type_error() -> Seq<char> {
    "--recurrence-type must be one of: DAILY, WEEKLY, MONTHLY, YEARLY"@
}

pub open spec fn interval_required_error() -> Seq<char> {
    "--interval is required for a custom recurrence (must be 1 or greater)."@
}

pub open spec fn interval_error() -> Seq<char> {
    "--interval must be 1 or greater"@
}

pub open spec fn weekly_error() -> Seq<char> {
    "--days-of-week is required when --recurrence-type is WEEKLY"@
}

pub open spec fn monthly_error() -> Seq<char> {
    "For --recurrence-type MONTHLY, specify --days-of-month, --last-day, or --nth-week (with --days-of-week)."@
}

pub open spec fn yearly_error() -> Seq<char> {
    "--days-of-month, --days-of-week, and --last-day cannot be used with --recurrence-type YEARLY."@
}

pub open spec fn nth_week_error() -> Seq<char> {
    "--nth-week must be between 1 and 5"@
}

/// Whether any option of a custom recurrence is given.
pub open spec fn has_custom_options(
    recurrence_type: Option<Seq<char>>,
    interval: Option<i32>,
    days_of_week: Option<Seq<char>>,
    days_of_month: Option<Seq<char>>,
    end_date: Option<Seq<char>>,
    last_day: bool,
    nth_week: Option<i32>,
    repeat_from_completion: bool,
) -> bool {
    recurrence_type is Some || interval is Some || days_of_week is Some || days_of_month is Some
        || end_date is Some || last_day || nth_week is Some || repeat_from_completion
}

/// A request with only a basic pattern.
pub open spec fn basic_request(p: Seq<char>) -> RecurringRequestModel {
    RecurringRequestModel {
        pattern: Some(p),
        recurrence_type: None,
        interval: None,
        days_of_week: Seq::empty(),
        days_of_month: Seq::empty(),
        end_date: None,
        is_last_day: None,
        nth_week: None,
        repeat_from_completion: None,
    }
}

/// The days of week a custom recurrence lists (none when the flag is absent).
pub open spec fn listed_days_of_week(days_of_week: Option<Seq<char>>) -> Result<Seq<Seq<char>>, Seq<char>> {
    match days_of_week {
        Some(s) => days_of_week_spec(csv_items(s)),
        None => Ok(Seq::empty()),
    }
}

/// The days of month a custom recurrence lists (none when the flag is absent).
pub open spec fn listed_days_of_month(days_of_month: Option<Seq<char>>) -> Result<Seq<i32>, Seq<char>> {
    match days_of_month {
        Some(s) => days_of_month_spec(csv_items(s)),
        None => Ok(Seq::empty()),
    }
}

/// The normalized end date (none when the flag is absent).
pub open spec fn listed_end_date(end_date: Option<Seq<char>>) -> Result<Option<Seq<char>>, Seq<char>> {
    match end_date {
        Some(s) => match due_date_spec(s) {
            Ok(d) => Ok(Some(d)),
            Err(e) => Err(e),
        },
        None => Ok(None),
    }
}

/// The checks of a custom recurrence once its type is known and valid.
pub open spec fn custom_request(
    rt: Seq<char>,
    interval: Option<i32>,
    days_of_week: Option<Seq<char>>,
    days_of_month: Option<Seq<char>>,
    end_date: Option<Seq<char>>,
    last_day: bool,
    nth_week: Option<i32>,
    repeat_from_completion: bool,
) -> Result<RecurringRequestModel, Seq<char>> {
    match interval {
        None => Err(interval_required_error()),
        Some(n) => if n < 1 {
            Err(interval_error())
        } else {
            match listed_days_of_week(days_of_week) {
                Err(e) => Err(e),
                Ok(dw) => if rt == "WEEKLY"@ && dw.len() == 0 {
                    Err(weekly_error())
                } else {
                    match listed_days_of_month(days_of_month) {
                        Err(e) => Err(e),
                        Ok(dm) => if rt == "MONTHLY"@ && dm.len() == 0 && !last_day && nth_week is None {
                            Err(monthly_error())
                        } else if rt == "YEARLY"@ && (dm.len() > 0 || dw.len() > 0 || last_day) {
                            Err(yearly_error())
                        } else {
                            match listed_end_date(end_date) {
                                Err(e) => Err(e),
                                Ok(ed) => if nth_week matches Some(k) && !(1 <= k <= 5) {
                                    Err(nth_week_error())
                                } else {
                                    Ok(RecurringRequestModel {
                                        pattern: None,
                                        recurrence_type: Some(rt),
                                        interval: Some(n),
                                        days_of_week: dw,
                                        days_of_month: dm,
                                        end_date: ed,
                                        is_last_day: if last_day { Some(true) } else { None },
                                        nth_week: nth_week,
                                        repeat_from_completion: if repeat_from_completion {
                                            Some(true)
                                        } else {
                                            None
                                        },
                                    })
                                },
                            }
                        },
                    }
                },
            }
        },
    }
}

/// The request that `goal recurring set` sends, or the error it stops with:
/// either a basic `--pattern` or custom options, never both.
pub open spec fn recurring_request_spec(
    pattern: Option<Seq<char>>,
    recurrence_type: Option<Seq<char>>,
    interval: Option<i32>,
    days_of_week: Option<Seq<char>>,
    days_of_month: Option<Seq<char>>,
    end_date: Option<Seq<char>>,
    last_day: bool,
    nth_week: Option<i32>,
    repeat_from_completion: bool,
) -> Result<RecurringRequestModel, Seq<char>> {
    let has_custom = has_custom_options(
        recurrence_type,
        interval,
        days_of_week,
        days_of_month,
        end_date,
        last_day,
        nth_week,
        repeat_from_completion,
    );
    match pattern {
        Some(p) => if has_custom {
            Err(combined_error())
        } else if is_basic_pattern(unicode_upper(p)) {
            Ok(basic_request(unicode_upper(p)))
        } else {
            Err(pattern_error())
        },
        None => if !has_custom {
            Err(nothing_error())
        } else {
            match recurrence_type {
                None => Err(type_required_error()),
                Some(t) => if !is_recurrence_type(unicode_upper(t)) {
                    Err(type_error())
                } else {
                    custom_request(
                        unicode_upper(t),
                        interval,
                        days_of_week,
                        days_of_month,
                        end_date,
                        last_day,
                        nth_week,
                        repeat_from_completion,
                    )
                },
            }
        },
    }
}

pub open spec fn opt_str(o: Option<&str>) -> Option<Seq<char>> {
    match o {
        Some(s) => Some(s@),
        None => None,
    }
}

fn is_basic(p: &str) -> (b: bool)
    ensures
        b == is_basic_pattern(p@),
{
    str_eq(p, "DAILY") || str_eq(p, "WEEKLY") || str_eq(p, "MONTHLY") || str_eq(p, "WEEKDAYS")
}

fn is_type(t: &str) -> (b: bool)
    ensures
        b == is_recurrence_type(t@),
{
    str_eq(t, "DAILY") || str_eq(t, "WEEKLY") || str_eq(t, "MONTHLY") || str_eq(t, "YEARLY")
}

/// Validates the flags of `goal recurring set` and builds the request body.
pub fn build_recurring_goal_request(
    pattern: Option<&str>,
    recurrence_type: Option<&str>,
    interval: Option<i32>,
    days_of_week: Option<&str>,
    days_of_month: Option<&str>,
    end_date: Option<&str>,
    last_day: bool,
    nth_week: Option<i32>,
    repeat_from_completion: bool,
) -> (r: Result<RecurringGoalRequest, String>)
    ensures
        match recurring_request_spec(
            opt_str(pattern),
            opt_str(recurrence_type),
            interval,
            opt_str(days_of_week),
            opt_str(days_of_month),
            opt_str(end_date),
            last_day,
            nth_week,
            repeat_from_completion,
        ) {
            Ok(m) => r matches Ok(x) && x@ == m,
            Err(e) => r matches Err(x) && x@ == e,
        },
{
    let has_basic = pattern.is_some();
    let has_custom = recurrence_type.is_some() || interval.is_some() || days_of_week.is_some()
        || days_of_month.is_some() || end_date.is_some() || last_day || nth_week.is_some()
        || repeat_from_completion;
    if has_basic && has_custom {
        return Err(owned(
            "--pattern cannot be combined with custom recurrence options (--recurrence-type, --interval, --days-of-week, --days-of-month, --end-date, --last-day, --nth-week, --repeat-from-completion).",
        ));
    }
    if !has_basic && !has_custom {
        return Err(owned(
            "Specify either --pattern <DAILY|WEEKLY|MONTHLY|WEEKDAYS> or custom recurrence options starting with --recurrence-type <DAILY|WEEKLY|MONTHLY|YEARLY>.",
        ));
    }
    if let Some(p) = pattern {
        let upper = to_upper(p);
        if !is_basic(upper.as_str()) {
            return Err(owned("--pattern must be one of: DAILY, WEEKLY, MONTHLY, WEEKDAYS"));
        }
        let req = RecurringGoalRequest {
            pattern: Some(upper),
            recurrence_type: None,
            interval: None,
            days_of_week: Vec::new(),
            days_of_month: Vec::new(),
            end_date: None,
            is_last_day: None,
            nth_week: None,
            repeat_from_completion: None,
        };
        assert(req@.days_of_week =~= Seq::<Seq<char>>::empty());
        return Ok(req);
    }
    let rt = match recurrence_type {
        Some(t) => to_upper(t),
        None => {
            return Err(owned(
                "--recurrence-type is required for a custom recurrence (DAILY, WEEKLY, MONTHLY, YEARLY).",
            ));
        },
    };
    if !is_type(rt.as_str()) {
        return Err(owned("--recurrence-type must be one of: DAILY, WEEKLY, MONTHLY, YEARLY"));
    }
    let n = match interval {
        Some(n) => n,
        None => {
            return Err(owned(
                "--interval is required for a custom recurrence (must be 1 or greater).",
            ));
        },
    };
    if n < 1 {
        return Err(owned("--interval must be 1 or greater"));
    }
    let dw: Vec<String> = match days_of_week {
        Some(s) => match parse_days_of_week(s) {
            Ok(v) => v,
            Err(e) => {
                return Err(e);
            },
        },
        None => {
            let v: Vec<String> = Vec::new();
            assert(views(v@) =~= Seq::<Seq<char>>::empty());
            v
        },
    };
    if str_eq(rt.as_str(), "WEEKLY") && dw.len() == 0 {
        return Err(owned("--days-of-week is required when --recurrence-type is WEEKLY"));
    }
    let dm: Vec<i32> = match days_of_month {
        Some(s) => match parse_days_of_month(s) {
            Ok(v) => v,
            Err(e) => {
                return Err(e);
            },
        },
        None => Vec::new(),
    };
    if str_eq(rt.as_str(), "MONTHLY") && dm.len() == 0 && !last_day && nth_week.is_none() {
        return Err(owned(
            "For --recurrence-type MONTHLY, specify --days-of-month, --last-day, or --nth-week (with --days-of-week).",
        ));
    }
    if str_eq(rt.as_str(), "YEARLY") && (dm.len() > 0 || dw.len() > 0 || last_day) {
        return Err(owned(
            "--days-of-month, --days-of-week, and --last-day cannot be used with --recurrence-type YEARLY.",
        ));
    }
    let ed: Option<String> = match end_date {
        Some(s) => match normalize_due_date(s) {
            Ok(d) => Some(d),
            Err(e) => {
                return Err(e);
            },
        },
        None => None,
    };
    if let Some(k) = nth_week {
        if !(1 <= k && k <= 5) {
            return Err(owned("--nth-week must be between 1 and 5"));
        }
    }
    let req = RecurringGoalRequest {
        pattern: None,
        recurrence_type: Some(rt),
        interval: Some(n),
        days_of_week: dw,
        days_of_month: dm,
        end_date: ed,
        is_last_day: if last_day { Some(true) } else { None },
        nth_week: nth_week,
        repeat_from_completion: if repeat_from_completion { Some(true) } else { None },
    };
    Ok(req)
}

/// A valid recurring request never mixes the two ways of giving a schedule:
/// it has a basic pattern or a custom recurrence type, exactly one of them.
pub proof fn recurring_request_is_basic_or_custom(
    pattern: Option<Seq<char>>,
    recurrence_type: Option<Seq<char>>,
    interval: Option<i32>,
    days_of_week: Option<Seq<char>>,
    days_of_month: Option<Seq<char>>,
    end_date: Option<Seq<char>>,
    last_day: bool,
    nth_week: Option<i32>,
    repeat_from_completion: bool,
)
    ensures
        recurring_request_spec(
            pattern,
            recurrence_type,
            interval,
            days_of_week,
            days_of_month,
            end_date,
            last_day,
            nth_week,
            repeat_from_completion,
        ) matches Ok(m) ==> (m.pattern is Some <==> m.recurrence_type is None),
        pattern is Some && has_custom_options(
            recurrence_type,
            interval,
            days_of_week,
            days_of_month,
            end_date,
            last_day,
            nth_week,
            repeat_from_completion,
        ) ==> recurring_request_spec(
            pattern,
            recurrence_type,
            interval,
            days_of_week,
            days_of_month,
            end_date,
            last_day,
            nth_week,
            repeat_from_completion,
        ) == Err::<RecurringRequestModel, Seq<char>>(combined_error()),
{
}

/// A custom recurrence that is accepted has a positive interval, a weekly
/// one lists at least one day of the week, the nth week is between 1 and 5,
/// the days of month are between 1 and 31 and the days of week are day
/// names.
pub proof fn custom_recurrence_is_well_formed(
    pattern: Option<Seq<char>>,
    recurrence_type: Option<Seq<char>>,
    interval: Option<i32>,
    days_of_week: Option<Seq<char>>,
    days_of_month: Option<Seq<char>>,
    end_date: Option<Seq<char>>,
    last_day: bool,
    nth_week: Option<i32>,
    repeat_from_completion: bool,
)
    ensures
        recurring_request_spec(
            pattern,
            recurrence_type,
            interval,
            days_of_week,
            days_of_month,
            end_date,
            last_day,
            nth_week,
            repeat_from_completion,
        ) matches Ok(m) ==> (m.recurrence_type is Some ==> {
            &&& m.interval matches Some(n) && n >= 1
            &&& m.recurrence_type == Some("WEEKLY"@) ==> m.days_of_week.len() > 0
            &&& m.nth_week matches Some(k) ==> 1 <= k <= 5
            &&& forall|i: int| 0 <= i < m.days_of_month.len() ==> 1 <= #[trigger] m.days_of_month[i] <= 31
            &&& forall|i: int| 0 <= i < m.days_of_week.len() ==> is_weekday_name(#[trigger] m.days_of_week[i])
        }),
{
    if let Some(s) = days_of_month {
        lemma_days_of_month_range(csv_items(s));
    }
    if let Some(s) = days_of_week {
        lemma_days_of_week_names(csv_items(s));
    }
}

/// An accepted custom recurrence carries what the user asked for: the
/// interval exactly as given (every other week stays every other week), the
/// recurrence type upper-cased, the nth week as given, the last-day and
/// repeat-from-completion flags set exactly when they were given, an end
/// date exactly when one was given, and one entry per listed day of the
/// week (upper-cased) and of the month (the number it spells).
pub proof fn custom_recurrence_keeps_options(
    pattern: Option<Seq<char>>,
    recurrence_type: Option<Seq<char>>,
    interval: Option<i32>,
    days_of_week: Option<Seq<char>>,
    days_of_month: Option<Seq<char>>,
    end_date: Option<Seq<char>>,
    last_day: bool,
    nth_week: Option<i32>,
    repeat_from_completion: bool,
)
    ensures
        recurring_request_spec(
            pattern,
            recurrence_type,
            interval,
            days_of_week,
            days_of_month,
            end_date,
            last_day,
            nth_week,
            repeat_from_completion,
        ) matches Ok(m) ==> (m.recurrence_type is Some ==> {
            &&& m.interval == interval
            &&& recurrence_type matches Some(t) && m.recurrence_type == Some(unicode_upper(t))
            &&& m.nth_week == nth_week
            &&& (m.is_last_day == Some(true) <==> last_day)
            &&& (m.repeat_from_completion == Some(true) <==> repeat_from_completion)
            &&& (m.end_date is Some <==> end_date is Some)
            &&& days_of_week is None ==> m.days_of_week.len() == 0
            &&& days_of_week matches Some(s) ==> m.days_of_week.len() == csv_items(s).len()
                && forall|i: int|
                0 <= i < m.days_of_week.len() ==> #[trigger] m.days_of_week[i] == unicode_upper(
                    csv_items(s)[i],
                )
            &&& days_of_month is None ==> m.days_of_month.len() == 0
            &&& days_of_month matches Some(s) ==> m.days_of_month.len() == csv_items(s).len()
                && forall|i: int|
                0 <= i < m.days_of_month.len() ==> parse_i32_spec(csv_items(s)[i]) == Some(
                    #[trigger] m.days_of_month[i],
                )
        }),
{
    if let Some(s) = days_of_week {
        day_lists_keep_each_item(csv_items(s));
    }
    if let Some(s) = days_of_month {
        day_lists_keep_each_item(csv_items(s));
    }
}

proof fn lemma_days_of_week_names(items: Seq<Seq<char>>)
    ensures
        days_of_week_spec(items) matches Ok(ds) ==> forall|i: int|
            0 <= i < ds.len() ==> is_weekday_name(#[trigger] ds[i]),
    decreases items.len(),
{
    if items.len() > 0 {
        lemma_days_of_week_names(items.drop_last());
    }
}

proof fn lemma_days_of_month_range(items: Seq<Seq<char>>)
    ensures
        days_of_month_spec(items) matches Ok(ds) ==> forall|i: int|
            0 <= i < ds.len() ==> 1 <= #[trigger] ds[i] <= 31,
    decreases items.len(),
{
    if items.len() > 0 {
        lemma_days_of_month_range(items.drop_last());
    }
}

// ---------------------------------------------------------------------------
// Goal statuses and tree items
// ---------------------------------------------------------------------------

/// The status a goal has on the backend besides completion.
#[derive(Clone, Copy, Debug, PartialEq, Eq, Structural)]
pub enum GoalStatus {
    /// Not started.
    NoneStatus,
    InProgress,
    Cancelled,
}

/// The owner of a goal as the goal tree reports it.
#[derive(Debug)]
pub struct GoalOwner {
    pub name: String,
}

/// A goal as `GET /goals/tree` lists it.
#[derive(Debug)]
pub struct GoalTreeItem {
    pub id: String,
    pub title: String,
    pub parent_id: Option<String>,
    pub status: Option<GoalStatus>,
    pub is_completed: bool,
    pub has_children: bool,
    pub owner: Option<GoalOwner>,
}

impl GoalTreeItem {
    /// A field-by-field copy.
    pub fn duplicate(&self) -> (r: Self)
        ensures
            r == *self,
    {
        GoalTreeItem {
            id: self.id.clone(),
            title: self.title.clone(),
            parent_id: copy_opt(&self.parent_id),
            status: self.status,
            is_completed: self.is_completed,
            has_children: self.has_children,
            owner: match &self.owner {
                Some(o) => Some(GoalOwner { name: o.name.clone() }),
                None => None,
            },
        }
    }
}

pub open spec fn invalid_status_error(status: Seq<char>) -> Seq<char> {
    "Invalid status: '"@ + status + "'. Use one of: NOT_STARTED, IN_PROGRESS, COMPLETED, CANCELLED"@
}

/// What `goal update --status` sends: the `completedAt` change (set to `now`
/// for COMPLETED, cleared otherwise) and the backend status, for the status
/// named in any letter case.
pub open spec fn status_change_spec(status: Seq<char>, now: Option<String>) -> Result<
    (Option<Option<String>>, Option<GoalStatus>),
    Seq<char>,
> {
    let u = unicode_upper(status);
    if u == "NOT_STARTED"@ {
        Ok((Some(None), Some(GoalStatus::NoneStatus)))
    } else if u == "IN_PROGRESS"@ {
        Ok((Some(None), Some(GoalStatus::InProgress)))
    } else if u == "COMPLETED"@ {
        match now {
            Some(t) => Ok((Some(Some(t)), None)),
            None => Err(crate::login::clock_error()),
        }
    } else if u == "CANCELLED"@ {
        Ok((Some(None), Some(GoalStatus::Cancelled)))
    } else {
        Err(invalid_status_error(status))
    }
}

/// `parse_status` with the completion time given (`None` where the clock
/// gave no time).
pub fn parse_status_at(status: &str, now: Option<String>) -> (r: Result<
    (Option<Option<String>>, Option<GoalStatus>),
    String,
>)
    ensures
        match status_change_spec(status@, now) {
            Ok(v) => r == Ok::<(Option<Option<String>>, Option<GoalStatus>), String>(v),
            Err(e) => r matches Err(x) && x@ == e,
        },
{
    let u = to_upper(status);
    if str_eq(u.as_str(), "NOT_STARTED") {
        Ok((Some(None), Some(GoalStatus::NoneStatus)))
    } else if str_eq(u.as_str(), "IN_PROGRESS") {
        Ok((Some(None), Some(GoalStatus::InProgress)))
    } else if str_eq(u.as_str(), "COMPLETED") {
        match now {
            Some(t) => Ok((Some(Some(t)), None)),
            None => Err(owned("The system clock is set before 1970-01-01")),
        }
    } else if str_eq(u.as_str(), "CANCELLED") {
        Ok((Some(None), Some(GoalStatus::Cancelled)))
    } else {
        let mut e = owned("Invalid status: '");
        e.append(status);
        e.append("'. Use one of: NOT_STARTED, IN_PROGRESS, COMPLETED, CANCELLED");
        Err(e)
    }
}

/// The current time in RFC 3339, as `chrono::Utc::now().to_rfc3339()`
/// writes it, built the way `Utc::now` builds it but without its panics:
/// `None` where the clock is set before the Unix epoch or past chrono's
/// range. Trusted, with nothing claimed of the text: it is the clock.
#[verifier::external_body]
fn now_rfc3339() -> (r: Option<String>) {
    let now = std::time::SystemTime::now().duration_since(std::time::UNIX_EPOCH).ok()?;
    chrono::DateTime::from_timestamp(now.as_secs() as i64, now.subsec_nanos()).map(|t| t.to_rfc3339())
}

/// Parses a CLI status into the `completedAt` change and the backend status;
/// COMPLETED stamps the current time, and fails where the clock gives none.
pub fn parse_status(status: &str) -> (r: Result<
    (Option<Option<String>>, Option<GoalStatus>),
    String,
>)
    ensures
        exists|now: Option<String>| #[trigger] status_change_spec(status@, now) == match r {
            Ok(v) => Ok::<(Option<Option<String>>, Option<GoalStatus>), Seq<char>>(v),
            Err(e) => Err::<(Option<Option<String>>, Option<GoalStatus>), Seq<char>>(e@),
        },
{
    let now = now_rfc3339();
    let r = parse_status_at(status, now);
    assert(status_change_spec(status@, now) == match r {
        Ok(v) => Ok::<(Option<Option<String>>, Option<GoalStatus>), Seq<char>>(v),
        Err(e) => Err::<(Option<Option<String>>, Option<GoalStatus>), Seq<char>>(e@),
    });
    r
}

// ---------------------------------------------------------------------------
// Updating a goal
// ---------------------------------------------------------------------------

/// What `goal update` sends. `completed_at` and `due_date` are present when
/// they change, and then hold the new value or `None` to clear it.
#[derive(Debug)]
pub struct UpdateGoalRequest {
    pub status: Option<GoalStatus>,
    pub completed_at: Option<Option<String>>,
    pub title: Option<String>,
    pub description: Option<String>,
    pub body: Option<String>,
    pub due_date: Option<Option<String>>,
}

/// The text of an optional optional string.
pub open spec fn opt_opt_view(o: Option<Option<String>>) -> Option<Option<Seq<char>>> {
    match o {
        Some(inner) => Some(opt_view(inner)),
        None => None,
    }
}

/// The due-date change of `goal update`: cleared by `--clear-due-date`,
/// else the normalized `--due-date` when given.
pub open spec fn due_date_change(due_date: Option<Seq<char>>, clear: bool) -> Result<
    Option<Option<Seq<char>>>,
    Seq<char>,
> {
    if clear {
        Ok(Some(None))
    } else {
        match due_date {
            Some(d) => match due_date_spec(d) {
                Ok(n) => Ok(Some(Some(n))),
                Err(e) => Err(e),
            },
            None => Ok(None),
        }
    }
}

/// The error of a `goal update` that changes nothing.
pub open spec fn nothing_to_update_error() -> Seq<char> {
    "Nothing to update. Specify --status, --title, --description, --body, or --due-date."@
}

/// The request of `goal update` from the parsed status change (see
/// [`parse_status`]), the title, the description and body texts as read,
/// and the due-date flags; an error for a bad due date or when nothing
/// would change.
pub fn build_update_goal_request(
    status_change: (Option<Option<String>>, Option<GoalStatus>),
    title: Option<&String>,
    description: Option<String>,
    body: Option<String>,
    due_date: Option<&String>,
    clear_due_date: bool,
) -> (r: Result<UpdateGoalRequest, String>)
    ensures
        match due_date_change(
            match due_date {
                Some(d) => Some(d@),
                None => None,
            },
            clear_due_date,
        ) {
            Err(e) => r matches Err(x) && x@ == e,
            Ok(dc) => if status_change.0 is None && status_change.1 is None && title is None
                && description is None && body is None && dc is None {
                r matches Err(x) && x@ == nothing_to_update_error()
            } else {
                r matches Ok(req) && {
                    &&& req.completed_at == status_change.0
                    &&& req.status == status_change.1
                    &&& opt_view(req.title) == match title {
                        Some(t) => Some(t@),
                        None => None,
                    }
                    &&& req.description == description
                    &&& req.body == body
                    &&& opt_opt_view(req.due_date) == dc
                }
            },
        },
{
    let due: Option<Option<String>> = if clear_due_date {
        Some(None)
    } else {
        match due_date {
            Some(d) => match normalize_due_date(d.as_str()) {
                Ok(n) => Some(Some(n)),
                Err(e) => {
                    return Err(e);
                },
            },
            None => None,
        }
    };
    let (completed_at, status) = status_change;
    let title: Option<String> = match title {
        Some(t) => Some(t.clone()),
        None => None,
    };
    if status.is_none() && completed_at.is_none() && title.is_none() && description.is_none()
        && body.is_none() && due.is_none() {
        return Err(
            owned(
                "Nothing to update. Specify --status, --title, --description, --body, or --due-date.",
            ),
        );
    }
    Ok(UpdateGoalRequest { status, completed_at, title, description, body, due_date: due })
}

// ---------------------------------------------------------------------------
// List filters
// ---------------------------------------------------------------------------

/// Whether an item passes `goal list --status` with the upper-cased filter;
/// an unknown filter lets everything through.
pub open spec fn status_filter_spec(item: GoalTreeItem, filter: Seq<char>) -> bool {
    if filter == "COMPLETED"@ {
        item.is_completed
    } else if filter == "NOT_STARTED"@ {
        !item.is_completed && (item.status is None || item.status == Some(GoalStatus::NoneStatus))
    } else if filter == "IN_PROGRESS"@ {
        !item.is_completed && item.status == Some(GoalStatus::InProgress)
    } else if filter == "CANCELLED"@ {
        !item.is_completed && item.status == Some(GoalStatus::Cancelled)
    } else {
        true
    }
}

/// The four status filters of `goal list --status` split the goals: every
/// goal passes exactly one of `COMPLETED`, `NOT_STARTED`, `IN_PROGRESS` and
/// `CANCELLED`, so no goal is dropped from all four lists and none shows up
/// in two.
pub proof fn status_filters_partition_goals(item: GoalTreeItem)
    ensures
        status_filter_spec(item, "NOT_STARTED"@) || status_filter_spec(item, "IN_PROGRESS"@)
            || status_filter_spec(item, "CANCELLED"@) || status_filter_spec(item, "COMPLETED"@),
        status_filter_spec(item, "COMPLETED"@) ==> !status_filter_spec(item, "NOT_STARTED"@)
            && !status_filter_spec(item, "IN_PROGRESS"@) && !status_filter_spec(
            item,
            "CANCELLED"@,
        ),
        status_filter_spec(item, "NOT_STARTED"@) ==> !status_filter_spec(item, "IN_PROGRESS"@)
            && !status_filter_spec(item, "CANCELLED"@),
        status_filter_spec(item, "IN_PROGRESS"@) ==> !status_filter_spec(item, "CANCELLED"@),
{
    reveal_strlit("COMPLETED");
    reveal_strlit("NOT_STARTED");
    reveal_strlit("IN_PROGRESS");
    reveal_strlit("CANCELLED");
    assert("COMPLETED"@[0] != "NOT_STARTED"@[0]);
    assert("COMPLETED"@[0] != "IN_PROGRESS"@[0]);
    assert("COMPLETED"@[1] != "CANCELLED"@[1]);
    assert("NOT_STARTED"@[0] != "IN_PROGRESS"@[0]);
    assert("NOT_STARTED"@[0] != "CANCELLED"@[0]);
    assert("IN_PROGRESS"@[0] != "CANCELLED"@[0]);
    match item.status {
        None => {},
        Some(GoalStatus::NoneStatus) => {},
        Some(GoalStatus::InProgress) => {},
        Some(GoalStatus::Cancelled) => {},
    }
}

fn status_filter_matches(item: &GoalTreeItem, filter: &str) -> (b: bool)
    ensures
        b == status_filter_spec(*item, filter@),
{
    if str_eq(filter, "COMPLETED") {
        item.is_completed
    } else if str_eq(filter, "NOT_STARTED") {
        !item.is_completed && match item.status {
            None => true,
            Some(s) => s == GoalStatus::NoneStatus,
        }
    } else if str_eq(filter, "IN_PROGRESS") {
        !item.is_completed && item.status == Some(GoalStatus::InProgress)
    } else if str_eq(filter, "CANCELLED") {
        !item.is_completed && item.status == Some(GoalStatus::Cancelled)
    } else {
        true
    }
}

/// `goal list --status`: the items whose state the status names.
pub fn filter_by_status(items: Vec<GoalTreeItem>, status: &str) -> (r: Vec<GoalTreeItem>)
    ensures
        r@ == items@.filter(|it: GoalTreeItem| status_filter_spec(it, unicode_upper(status@))),
{
    let filter = to_upper(status);
    let ghost pred = |it: GoalTreeItem| status_filter_spec(it, unicode_upper(status@));
    let mut out: Vec<GoalTreeItem> = Vec::new();
    let mut i: usize = 0;
    assert(items@.take(0) =~= Seq::<GoalTreeItem>::empty());
    proof {
        reveal(Seq::filter);
    }
    while i < items.len()
        invariant
            i <= items.len(),
            filter@ == unicode_upper(status@),
            pred == (|it: GoalTreeItem| status_filter_spec(it, unicode_upper(status@))),
            out@ == items@.take(i as int).filter(pred),
        decreases items.len() - i,
    {
        proof {
            items@.take(i as int).lemma_filter_push(items@[i as int], pred);
            assert(items@.take(i + 1) =~= items@.take(i as int).push(items@[i as int]));
        }
        if status_filter_matches(&items[i], filter.as_str()) {
            out.push(items[i].duplicate());
        }
        i = i + 1;
    }
    assert(items@.take(items.len() as int) =~= items@);
    out
}

/// Whether an item's owner name, lower-cased, contains `name_lower`.
pub open spec fn owner_filter_spec(item: GoalTreeItem, name_lower: Seq<char>) -> bool {
    item.owner matches Some(o) && has_infix(unicode_lower(o.name@), name_lower)
}

/// `goal list --assigned-to`: the items whose owner's name contains the
/// given name, compared in lower case.
pub fn filter_by_owner(items: Vec<GoalTreeItem>, owner_name: &str) -> (r: Vec<GoalTreeItem>)
    ensures
        r@ == items@.filter(|it: GoalTreeItem| owner_filter_spec(it, unicode_lower(owner_name@))),
{
    let name_lower = to_lower(owner_name);
    let ghost pred = |it: GoalTreeItem| owner_filter_spec(it, unicode_lower(owner_name@));
    let mut out: Vec<GoalTreeItem> = Vec::new();
    let mut i: usize = 0;
    assert(items@.take(0) =~= Seq::<GoalTreeItem>::empty());
    proof {
        reveal(Seq::filter);
    }
    while i < items.len()
        invariant
            i <= items.len(),
            name_lower@ == unicode_lower(owner_name@),
            pred == (|it: GoalTreeItem| owner_filter_spec(it, unicode_lower(owner_name@))),
            out@ == items@.take(i as int).filter(pred),
        decreases items.len() - i,
    {
        proof {
            items@.take(i as int).lemma_filter_push(items@[i as int], pred);
            assert(items@.take(i + 1) =~= items@.take(i as int).push(items@[i as int]));
        }
        let keep = match &items[i].owner {
            Some(o) => {
                let lower = to_lower(o.name.as_str());
                contains_text(lower.as_str(), name_lower.as_str())
            },
            None => false,
        };
        if keep {
            out.push(items[i].duplicate());
        }
        i = i + 1;
    }
    assert(items@.take(items.len() as int) =~= items@);
    out
}

/// Whether `--assigned-to` names the current user (`me`, in any ASCII case).
pub fn refers_to_current_user(filter: &str) -> (b: bool)
    ensures
        b == (ascii_lower(filter@) == "me"@),
{
    let lower = to_ascii_lower(filter);
    str_eq(lower.as_str(), "me")
}

/// The subtree items other than the goal `id` itself.
pub fn exclude_goal(items: Vec<GoalTreeItem>, id: &str) -> (r: Vec<GoalTreeItem>)
    ensures
        r@ == items@.filter(|it: GoalTreeItem| it.id@ != id@),
{
    let ghost pred = |it: GoalTreeItem| it.id@ != id@;
    let mut out: Vec<GoalTreeItem> = Vec::new();
    let mut i: usize = 0;
    assert(items@.take(0) =~= Seq::<GoalTreeItem>::empty());
    proof {
        reveal(Seq::filter);
    }
    while i < items.len()
        invariant
            i <= items.len(),
            pred == (|it: GoalTreeItem| it.id@ != id@),
            out@ == items@.take(i as int).filter(pred),
        decreases items.len() - i,
    {
        proof {
            items@.take(i as int).lemma_filter_push(items@[i as int], pred);
            assert(items@.take(i + 1) =~= items@.take(i as int).push(items@[i as int]));
        }
        if !str_eq(items[i].id.as_str(), id) {
            out.push(items[i].duplicate());
        }
        i = i + 1;
    }
    assert(items@.take(items.len() as int) =~= items@);
    out
}

// ---------------------------------------------------------------------------
// Related data of a goal's subtree
// ---------------------------------------------------------------------------

/// Whether `goal get` fetches the children's deliverables or comments: JSON
/// output always carries them, human output only on request.
pub fn should_fetch_child_related(json: bool, include_related: bool) -> (b: bool)
    ensures
        b == (json || include_related),
{
    json || include_related
}

/// A failed fetch of a subtree goal's deliverables or comments.
#[derive(Clone, Debug)]
pub struct RelatedFetchError {
    pub kind: &'static str,
    pub goal_id: String,
    pub message: String,
}

/// `{kind} for {goal_id}: {message}`.
pub open spec fn related_error_line(e: RelatedFetchError) -> Seq<char> {
    e.kind@ + " for "@ + e.goal_id@ + ": "@ + e.message@
}

pub open spec fn related_error_lines(errors: Seq<RelatedFetchError>) -> Seq<Seq<char>> {
    errors.map_values(|e: RelatedFetchError| related_error_line(e))
}

/// The message for failed related fetches: a heading and one line per
/// failure.
pub open spec fn related_error_message(errors: Seq<RelatedFetchError>) -> Seq<char> {
    "Failed to fetch related goal data:\n"@ + join_with(related_error_lines(errors), "\n"@)
}

fn error_line(e: &RelatedFetchError) -> (r: String)
    ensures
        r@ == related_error_line(*e),
{
    let mut s = owned(e.kind);
    s.append(" for ");
    s.append(e.goal_id.as_str());
    s.append(": ");
    s.append(e.message.as_str());
    s
}

pub fn related_fetch_error_message(errors: &[RelatedFetchError]) -> (r: String)
    ensures
        r@ == related_error_message(errors@),
{
    let mut details = String::new();
    let mut i: usize = 0;
    while i < errors.len()
        invariant
            i <= errors.len(),
            details@ == join_with(related_error_lines(errors@.take(i as int)), "\n"@),
        decreases errors.len() - i,
    {
        let ghost before = related_error_lines(errors@.take(i as int));
        let line = error_line(&errors[i]);
        assert(related_error_lines(errors@.take(i + 1)) =~= before.push(line@));
        if i > 0 {
            details.append("\n");
        }
        details.append(line.as_str());
        proof {
            let parts = before.push(line@);
            assert(parts.drop_last() =~= before);
            if i == 0 {
                assert(parts.len() == 1);
            }
        }
        i = i + 1;
    }
    assert(errors@.take(errors.len() as int) =~= errors@);
    let mut msg = owned("Failed to fetch related goal data:\n");
    msg.append(details.as_str());
    msg
}

/// `Warning: failed to fetch {kind} for {goal_id}: {message}`.
pub open spec fn related_warning(e: RelatedFetchError) -> Seq<char> {
    "Warning: failed to fetch "@ + related_error_line(e)
}

/// What failed related fetches lead to: nothing without failures; in strict
/// mode the combined error; otherwise a warning line for each failure.
pub fn handle_related_fetch_errors(strict: bool, errors: Vec<RelatedFetchError>) -> (r: Result<
    Vec<String>,
    String,
>)
    ensures
        errors@.len() == 0 ==> (r matches Ok(w) && w@.len() == 0),
        errors@.len() > 0 && strict ==> (r matches Err(e) && e@ == related_error_message(errors@)),
        errors@.len() > 0 && !strict ==> (r matches Ok(w) && views(w@) == errors@.map_values(
            |e: RelatedFetchError| related_warning(e),
        )),
{
    if errors.len() == 0 {
        return Ok(Vec::new());
    }
    if strict {
        return Err(related_fetch_error_message(errors.as_slice()));
    }
    let mut warnings: Vec<String> = Vec::new();
    let mut i: usize = 0;
    while i < errors.len()
        invariant
            i <= errors.len(),
            views(warnings@) == errors@.take(i as int).map_values(
                |e: RelatedFetchError| related_warning(e),
            ),
        decreases errors.len() - i,
    {
        let mut w = owned("Warning: failed to fetch ");
        let line = error_line(&errors[i]);
        w.append(line.as_str());
        let ghost before = views(warnings@);
        warnings.push(w);
        assert(views(warnings@) =~= before.push(w@));
        assert(errors@.take(i + 1).map_values(|e: RelatedFetchError| related_warning(e))
            =~= before.push(related_warning(errors@[i as int])));
        i = i + 1;
    }
    assert(errors@.take(errors.len() as int) =~= errors@);
    Ok(warnings)
}

// ---------------------------------------------------------------------------
// Recurring schedule lookups
// ---------------------------------------------------------------------------

/// What the backend answers `GET /recurring` with when no schedule is set.
pub open spec fn recurring_not_found_text() -> Seq<char> {
    "繰り返し設定が見つかりません"@
}

/// Whether an API error means the goal has no recurring schedule yet, which
/// the CLI treats as a normal answer.
pub fn is_recurring_goal_not_found(message: &str) -> (b: bool)
    ensures
        b == has_infix(message@, recurring_not_found_text()),
{
    contains_text(message, "繰り返し設定が見つかりません")
}

// ---------------------------------------------------------------------------
// Lists keyed by goal id
// ---------------------------------------------------------------------------

/// Lists of values keyed by goal id, each key at most once: the children of
/// each parent, or the deliverables or comments of each goal.
pub struct GroupMap<T> {
    entries: Vec<(String, Vec<T>)>,
}

/// Whether no key occurs twice in `entries`.
pub open spec fn distinct_keys<T>(entries: Seq<(String, Vec<T>)>) -> bool {
    forall|i: int, j: int|
        0 <= i < entries.len() && 0 <= j < entries.len() && i != j ==> (#[trigger] entries[i]).0@
            != (#[trigger] entries[j]).0@
}

/// The map that `entries` describe.
pub open spec fn group_entries_map<T>(entries: Seq<(String, Vec<T>)>) -> Map<Seq<char>, Seq<T>>
    decreases entries.len(),
{
    if entries.len() == 0 {
        Map::empty()
    } else {
        group_entries_map(entries.drop_last()).insert(entries.last().0@, entries.last().1@)
    }
}

/// All values of all lists in `entries`.
pub open spec fn group_entries_total<T>(entries: Seq<(String, Vec<T>)>) -> Multiset<T>
    decreases entries.len(),
{
    if entries.len() == 0 {
        Multiset::empty()
    } else {
        group_entries_total(entries.drop_last()).add(entries.last().1@.to_multiset())
    }
}

proof fn lemma_group_absent<T>(entries: Seq<(String, Vec<T>)>, k: Seq<char>)
    requires
        forall|i: int| 0 <= i < entries.len() ==> (#[trigger] entries[i]).0@ != k,
    ensures
        !group_entries_map(entries).contains_key(k),
    decreases entries.len(),
{
    if entries.len() > 0 {
        lemma_group_absent(entries.drop_last(), k);
    }
}

proof fn lemma_group_found<T>(entries: Seq<(String, Vec<T>)>, i: int)
    requires
        0 <= i < entries.len(),
        distinct_keys(entries),
    ensures
        group_entries_map(entries).contains_key(entries[i].0@),
        group_entries_map(entries)[entries[i].0@] == entries[i].1@,
    decreases entries.len(),
{
    if i < entries.len() - 1 {
        lemma_group_found(entries.drop_last(), i);
        assert(entries.drop_last()[i] == entries[i]);
        assert(entries[i].0@ != entries.last().0@);
    }
}

proof fn lemma_group_remove<T>(entries: Seq<(String, Vec<T>)>, i: int)
    requires
        0 <= i < entries.len(),
        distinct_keys(entries),
    ensures
        distinct_keys(entries.remove(i)),
        group_entries_map(entries.remove(i)) == group_entries_map(entries).remove(entries[i].0@),
        group_entries_total(entries.remove(i)).add(entries[i].1@.to_multiset())
            == group_entries_total(entries),
    decreases entries.len(),
{
    let k = entries[i].0@;
    let rest = entries.remove(i);
    assert forall|a: int, b: int|
        0 <= a < rest.len() && 0 <= b < rest.len() && a != b implies (#[trigger] rest[a]).0@
        != (#[trigger] rest[b]).0@ by {
        let a0 = if a < i { a } else { a + 1 };
        let b0 = if b < i { b } else { b + 1 };
        assert(rest[a] == entries[a0]);
        assert(rest[b] == entries[b0]);
    }
    if i == entries.len() - 1 {
        assert(rest =~= entries.drop_last());
        assert forall|j: int| 0 <= j < rest.len() implies (#[trigger] rest[j]).0@ != k by {
            assert(rest[j] == entries[j]);
        }
        lemma_group_absent(rest, k);
        assert(group_entries_map(rest) =~= group_entries_map(entries).remove(k));
    } else {
        let init = entries.drop_last();
        lemma_group_remove(init, i);
        assert(rest =~= init.remove(i).push(entries.last()));
        assert(rest.drop_last() =~= init.remove(i));
        assert(entries.last().0@ != k);
        assert(group_entries_map(rest) =~= group_entries_map(entries).remove(k));
        assert(group_entries_total(rest) == group_entries_total(init.remove(i)).add(
            entries.last().1@.to_multiset(),
        ));
        assert(group_entries_total(rest).add(entries[i].1@.to_multiset()) =~= group_entries_total(
            entries,
        ));
    }
}

proof fn lemma_group_push<T>(entries: Seq<(String, Vec<T>)>, e: (String, Vec<T>))
    requires
        distinct_keys(entries),
        !group_entries_map(entries).contains_key(e.0@),
    ensures
        distinct_keys(entries.push(e)),
{
    assert forall|j: int| 0 <= j < entries.len() implies (#[trigger] entries[j]).0@ != e.0@ by {
        lemma_group_found(entries, j);
    }
    let all = entries.push(e);
    assert forall|a: int, b: int|
        0 <= a < all.len() && 0 <= b < all.len() && a != b implies (#[trigger] all[a]).0@
        != (#[trigger] all[b]).0@ by {
        if a < entries.len() {
            assert(all[a] == entries[a]);
        }
        if b < entries.len() {
            assert(all[b] == entries[b]);
        }
    }
}

impl<T> GroupMap<T> {
    #[verifier::type_invariant]
    spec fn keys_distinct(self) -> bool {
        distinct_keys(self.entries@)
    }

    /// How many keys the map holds.
    pub closed spec fn size(self) -> nat {
        self.entries@.len()
    }

    /// All values of all lists, counted with repetition.
    pub closed spec fn total(self) -> Multiset<T> {
        group_entries_total(self.entries@)
    }

    pub fn new() -> (r: Self)
        ensures
            r@ == Map::<Seq<char>, Seq<T>>::empty(),
            r.size() == 0,
    {
        GroupMap { entries: Vec::new() }
    }

    fn position(&self, key: &str) -> (r: Option<usize>)
        ensures
            match r {
                Some(i) => i < self.entries@.len() && self.entries@[i as int].0@ == key@,
                None => forall|j: int|
                    0 <= j < self.entries@.len() ==> (#[trigger] self.entries@[j]).0@ != key@,
            },
    {
        let mut i: usize = 0;
        while i < self.entries.len()
            invariant
                i <= self.entries@.len(),
                forall|j: int| 0 <= j < i ==> (#[trigger] self.entries@[j]).0@ != key@,
            decreases self.entries@.len() - i,
        {
            if crate::text::str_eq(self.entries[i].0.as_str(), key) {
                return Some(i);
            }
            i = i + 1;
        }
        None
    }

    /// Removes the list of `key` and returns it (`HashMap::remove`).
    pub fn take(&mut self, key: &str) -> (r: Option<Vec<T>>)
        ensures
            final(self)@ == old(self)@.remove(key@),
            match r {
                Some(v) => old(self)@.contains_key(key@) && old(self)@[key@] == v@
                    && final(self).size() + 1 == old(self).size()
                    && final(self).total().add(v@.to_multiset()) == old(self).total(),
                None => !old(self)@.contains_key(key@) && final(self).size() == old(self).size()
                    && final(self).total() == old(self).total(),
            },
    {
        proof {
            use_type_invariant(&*self);
        }
        match self.position(key) {
            Some(i) => {
                proof {
                    lemma_group_found(self.entries@, i as int);
                    lemma_group_remove(self.entries@, i as int);
                }
                let mut entries: Vec<(String, Vec<T>)> = Vec::new();
                std::mem::swap(&mut entries, &mut self.entries);
                let (_, v) = entries.remove(i);
                self.entries = entries;
                Some(v)
            },
            None => {
                proof {
                    lemma_group_absent(self.entries@, key@);
                    assert(old(self)@.remove(key@) =~= old(self)@);
                }
                None
            },
        }
    }

    /// Appends `item` to the list of `key`, starting the list if there is
    /// none (`entry(key).or_default().push(item)`).
    pub fn push_into(&mut self, key: String, item: T)
        ensures
            final(self)@ == old(self)@.insert(
                key@,
                if old(self)@.contains_key(key@) {
                    old(self)@[key@]
                } else {
                    Seq::empty()
                }.push(item),
            ),
            final(self).total() == old(self).total().insert(item),
    {
        proof {
            use_type_invariant(&*self);
        }
        let ghost before = self.entries@;
        let mut entries: Vec<(String, Vec<T>)> = Vec::new();
        match self.position(key.as_str()) {
            Some(i) => {
                proof {
                    lemma_group_found(before, i as int);
                    lemma_group_remove(before, i as int);
                }
                std::mem::swap(&mut entries, &mut self.entries);
                let (k, mut v) = entries.remove(i);
                let ghost mid = entries@;
                v.push(item);
                proof {
                    lemma_group_absent(mid, key@);
                    lemma_group_push(mid, (k, v));
                    assert(mid.push((k, v)).drop_last() =~= mid);
                    assert(v@.to_multiset() =~= before[i as int].1@.to_multiset().insert(item)) by {
                        vstd::seq_lib::to_multiset_build(before[i as int].1@, item);
                    }
                }
                entries.push((k, v));
                self.entries = entries;
                proof {
                    assert(group_entries_map(self.entries@) =~= group_entries_map(before).insert(
                        key@,
                        before[i as int].1@.push(item),
                    ));
                }
            },
            None => {
                proof {
                    lemma_group_absent(before, key@);
                }
                let mut v: Vec<T> = Vec::new();
                v.push(item);
                proof {
                    lemma_group_push(before, (key, v));
                    assert(before.push((key, v)).drop_last() =~= before);
                    assert(v@ =~= Seq::<T>::empty().push(item));
                    assert(v@.to_multiset() =~= Multiset::<T>::empty().insert(item)) by {
                        vstd::seq_lib::to_multiset_build(Seq::<T>::empty(), item);
                        Seq::<T>::empty().to_multiset_ensures();
                        vstd::multiset::lemma_multiset_empty_len(Seq::<T>::empty().to_multiset());
                    }
                }
                std::mem::swap(&mut entries, &mut self.entries);
                entries.push((key, v));
                self.entries = entries;
            },
        }
    }
}

impl<T> View for GroupMap<T> {
    type V = Map<Seq<char>, Seq<T>>;

    closed spec fn view(&self) -> Map<Seq<char>, Seq<T>> {
        group_entries_map(self.entries@)
    }
}

impl<T> GroupMap<T> {
    /// Sets the list of `key` (`HashMap::insert`).
    pub fn insert(&mut self, key: String, list: Vec<T>)
        ensures
            final(self)@ == old(self)@.insert(key@, list@),
    {
        proof {
            use_type_invariant(&*self);
        }
        let ghost k = key@;
        let _ = self.take(key.as_str());
        proof {
            use_type_invariant(&*self);
        }
        let ghost mid = self.entries@;
        proof {
            assert(!group_entries_map(mid).contains_key(k));
            lemma_group_push(mid, (key, list));
            assert(mid.push((key, list)).drop_last() =~= mid);
        }
        let mut entries: Vec<(String, Vec<T>)> = Vec::new();
        std::mem::swap(&mut entries, &mut self.entries);
        entries.push((key, list));
        self.entries = entries;
        proof {
            assert(group_entries_map(self.entries@) =~= old(self)@.insert(k, list@));
        }
    }
}

// ---------------------------------------------------------------------------
// The goal tree
// ---------------------------------------------------------------------------

/// A goal of a subtree with what was fetched for it and its own children.
#[derive(Debug)]
pub struct GoalChildNode<D, C> {
    pub goal: GoalTreeItem,
    pub deliverables: Option<Vec<D>>,
    pub comments: Option<Vec<C>>,
    pub children: Option<Vec<GoalChildNode<D, C>>>,
}

/// The list of `key` in `m`, empty where there is none.
pub open spec fn group_of<T>(m: Map<Seq<char>, Seq<T>>, key: Seq<char>) -> Seq<T> {
    if m.contains_key(key) {
        m[key]
    } else {
        Seq::empty()
    }
}

/// The goals of `goals` whose parent is `parent`, in their order.
pub open spec fn children_of(goals: Seq<GoalTreeItem>, parent: Seq<char>) -> Seq<GoalTreeItem> {
    goals.filter(|g: GoalTreeItem| opt_view(g.parent_id) == Some(parent))
}

/// The goals of `goals` that have a parent.
pub open spec fn with_parent(goals: Seq<GoalTreeItem>) -> Seq<GoalTreeItem> {
    goals.filter(|g: GoalTreeItem| g.parent_id is Some)
}

pub open spec fn goals_of<D, C>(nodes: Seq<GoalChildNode<D, C>>) -> Seq<GoalTreeItem> {
    nodes.map_values(|n: GoalChildNode<D, C>| n.goal)
}

/// Every node of `nodes`, at any depth: its children are the list that
/// `groups` has for its id, or none at all (where that list was already
/// used); the deliverables and comments it carries are the lists that
/// `deliverables` and `comments` have for its id.
pub open spec fn tree_shape_ok<D, C>(
    nodes: Seq<GoalChildNode<D, C>>,
    groups: Map<Seq<char>, Seq<GoalTreeItem>>,
    deliverables: Map<Seq<char>, Seq<D>>,
    comments: Map<Seq<char>, Seq<C>>,
) -> bool
    decreases nodes,
{
    if nodes.len() == 0 {
        true
    } else {
        let n = nodes.last();
        let id = n.goal.id@;
        &&& tree_shape_ok(nodes.drop_last(), groups, deliverables, comments)
        &&& match n.children {
            Some(cs) => {
                &&& (goals_of(cs@) == group_of(groups, id) || cs@.len() == 0)
                &&& tree_shape_ok(cs@, groups, deliverables, comments)
            },
            None => false,
        }
        &&& n.deliverables matches Some(d) ==> deliverables.contains_key(id) && deliverables[id]
            == d@
        &&& n.comments matches Some(c) ==> comments.contains_key(id) && comments[id] == c@
    }
}

/// All goals of `nodes`, at any depth, counted with repetition.
pub open spec fn tree_goals<D, C>(nodes: Seq<GoalChildNode<D, C>>) -> Multiset<GoalTreeItem>
    decreases nodes,
{
    if nodes.len() == 0 {
        Multiset::empty()
    } else {
        let n = nodes.last();
        let below = match n.children {
            Some(cs) => tree_goals(cs@),
            None => Multiset::empty(),
        };
        tree_goals(nodes.drop_last()).insert(n.goal).add(below)
    }
}

proof fn lemma_submap_get<T>(a: Map<Seq<char>, Seq<T>>, b: Map<Seq<char>, Seq<T>>, k: Seq<char>)
    requires
        a.submap_of(b),
        a.contains_key(k),
    ensures
        b.contains_key(k),
        b[k] == a[k],
{
    assert(a.dom().contains(k) && (b.dom().contains(k) || !b.dom().contains(k)));
    assert(a.dom().contains(k) ==> b.dom().contains(k) && a[k] == b[k]);
}

proof fn lemma_tree_shape_widen<D, C>(
    nodes: Seq<GoalChildNode<D, C>>,
    g0: Map<Seq<char>, Seq<GoalTreeItem>>,
    d0: Map<Seq<char>, Seq<D>>,
    c0: Map<Seq<char>, Seq<C>>,
    g1: Map<Seq<char>, Seq<GoalTreeItem>>,
    d1: Map<Seq<char>, Seq<D>>,
    c1: Map<Seq<char>, Seq<C>>,
)
    requires
        tree_shape_ok(nodes, g0, d0, c0),
        g0.submap_of(g1),
        d0.submap_of(d1),
        c0.submap_of(c1),
    ensures
        tree_shape_ok(nodes, g1, d1, c1),
    decreases nodes,
{
    if nodes.len() > 0 {
        lemma_tree_shape_widen(nodes.drop_last(), g0, d0, c0, g1, d1, c1);
        let n = nodes.last();
        let id = n.goal.id@;
        if let Some(cs) = n.children {
            lemma_tree_shape_widen(cs@, g0, d0, c0, g1, d1, c1);
            if g0.contains_key(id) {
                lemma_submap_get(g0, g1, id);
            } else if goals_of(cs@) == group_of(g0, id) {
                assert(goals_of(cs@).len() == cs@.len());
            }
        }
        if d0.contains_key(id) {
            lemma_submap_get(d0, d1, id);
        }
        if c0.contains_key(id) {
            lemma_submap_get(c0, c1, id);
        }
    }
}

/// Whether some goal of `m` has the id `k`.
pub open spec fn has_goal_id(m: Multiset<GoalTreeItem>, k: Seq<char>) -> bool {
    exists|x: GoalTreeItem| #[trigger] m.count(x) > 0 && x.id@ == k
}

/// Whether no two goals of `m` share an id (and none occurs twice).
pub open spec fn ids_unique(m: Multiset<GoalTreeItem>) -> bool {
    forall|x: GoalTreeItem, y: GoalTreeItem|
        #![trigger m.count(x), m.count(y)]
        m.count(x) > 0 && m.count(y) > 0 && x.id@ == y.id@ ==> x == y && m.count(x) == 1
}

/// The list of `key` in `m`, if there is one.
pub open spec fn list_of<T>(m: Map<Seq<char>, Seq<T>>, key: Seq<char>) -> Option<Seq<T>> {
    if m.contains_key(key) {
        Some(m[key])
    } else {
        None
    }
}

pub open spec fn opt_list<T>(o: Option<Vec<T>>) -> Option<Seq<T>> {
    match o {
        Some(v) => Some(v@),
        None => None,
    }
}

/// Every node of `nodes`, at any depth, has as children exactly the list
/// that `groups` has for its id, and carries exactly the deliverables and
/// comments that `deliverables` and `comments` have for its id.
pub open spec fn tree_exact<D, C>(
    nodes: Seq<GoalChildNode<D, C>>,
    groups: Map<Seq<char>, Seq<GoalTreeItem>>,
    deliverables: Map<Seq<char>, Seq<D>>,
    comments: Map<Seq<char>, Seq<C>>,
) -> bool
    decreases nodes,
{
    if nodes.len() == 0 {
        true
    } else {
        let n = nodes.last();
        let id = n.goal.id@;
        &&& tree_exact(nodes.drop_last(), groups, deliverables, comments)
        &&& match n.children {
            Some(cs) => {
                &&& goals_of(cs@) == group_of(groups, id)
                &&& tree_exact(cs@, groups, deliverables, comments)
            },
            None => false,
        }
        &&& opt_list(n.deliverables) == list_of(deliverables, id)
        &&& opt_list(n.comments) == list_of(comments, id)
    }
}

proof fn lemma_tree_goals_parts<D, C>(nodes: Seq<GoalChildNode<D, C>>)
    requires
        nodes.len() > 0,
    ensures
        tree_goals(nodes.drop_last()).subset_of(tree_goals(nodes)),
        tree_goals(nodes).count(nodes.last().goal) > 0,
        nodes.last().children matches Some(cs) ==> tree_goals(cs@).subset_of(tree_goals(nodes)),
{
    broadcast use vstd::multiset::group_multiset_axioms;
}

/// Moving `tree_exact` to other maps that agree on every id of the tree.
proof fn lemma_tree_exact_transfer<D, C>(
    nodes: Seq<GoalChildNode<D, C>>,
    g1: Map<Seq<char>, Seq<GoalTreeItem>>,
    d1: Map<Seq<char>, Seq<D>>,
    c1: Map<Seq<char>, Seq<C>>,
    g2: Map<Seq<char>, Seq<GoalTreeItem>>,
    d2: Map<Seq<char>, Seq<D>>,
    c2: Map<Seq<char>, Seq<C>>,
)
    requires
        tree_exact(nodes, g1, d1, c1),
        forall|x: GoalTreeItem| #[trigger]
            tree_goals(nodes).count(x) > 0 ==> group_of(g1, x.id@) == group_of(g2, x.id@)
                && list_of(d1, x.id@) == list_of(d2, x.id@) && list_of(c1, x.id@) == list_of(
                c2,
                x.id@,
            ),
    ensures
        tree_exact(nodes, g2, d2, c2),
    decreases nodes,
{
    broadcast use vstd::multiset::group_multiset_axioms;
    if nodes.len() > 0 {
        lemma_tree_goals_parts(nodes);
        let n = nodes.last();
        assert forall|x: GoalTreeItem| #[trigger]
            tree_goals(nodes.drop_last()).count(x) > 0 implies group_of(g1, x.id@) == group_of(
            g2,
            x.id@,
        ) && list_of(d1, x.id@) == list_of(d2, x.id@) && list_of(c1, x.id@) == list_of(
            c2,
            x.id@,
        ) by {
            assert(tree_goals(nodes).count(x) > 0);
        }
        lemma_tree_exact_transfer(nodes.drop_last(), g1, d1, c1, g2, d2, c2);
        assert(tree_goals(nodes).count(n.goal) > 0);
        if let Some(cs) = n.children {
            assert forall|x: GoalTreeItem| #[trigger]
                tree_goals(cs@).count(x) > 0 implies group_of(g1, x.id@) == group_of(g2, x.id@)
                && list_of(d1, x.id@) == list_of(d2, x.id@) && list_of(c1, x.id@) == list_of(
                c2,
                x.id@,
            ) by {
                assert(tree_goals(nodes).count(x) > 0);
            }
            lemma_tree_exact_transfer(cs@, g1, d1, c1, g2, d2, c2);
        }
    }
}

proof fn lemma_unique_sub(a: Multiset<GoalTreeItem>, t: Multiset<GoalTreeItem>)
    requires
        a.subset_of(t),
        ids_unique(t),
    ensures
        ids_unique(a),
{
    assert forall|x: GoalTreeItem, y: GoalTreeItem|
        a.count(x) > 0 && a.count(y) > 0 && x.id@ == y.id@ implies x == y && a.count(x) == 1 by {
        assert(t.count(x) >= a.count(x));
        assert(t.count(y) >= a.count(y));
    }
}

proof fn lemma_id_sub(a: Multiset<GoalTreeItem>, t: Multiset<GoalTreeItem>, k: Seq<char>)
    requires
        a.subset_of(t),
        has_goal_id(a, k),
    ensures
        has_goal_id(t, k),
{
    let x = choose|x: GoalTreeItem| #[trigger] a.count(x) > 0 && x.id@ == k;
    assert(t.count(x) >= a.count(x));
}

/// Two parts of a multiset with unique ids share no id.
proof fn lemma_parts_disjoint_ids(
    a: Multiset<GoalTreeItem>,
    b: Multiset<GoalTreeItem>,
    t: Multiset<GoalTreeItem>,
    k: Seq<char>,
)
    requires
        a.add(b).subset_of(t),
        ids_unique(t),
        has_goal_id(a, k),
    ensures
        !has_goal_id(b, k),
{
    broadcast use vstd::multiset::group_multiset_axioms;
    let x = choose|x: GoalTreeItem| #[trigger] a.count(x) > 0 && x.id@ == k;
    if has_goal_id(b, k) {
        let y = choose|y: GoalTreeItem| #[trigger] b.count(y) > 0 && y.id@ == k;
        assert(t.count(x) >= a.add(b).count(x));
        assert(t.count(y) >= a.add(b).count(y));
        assert(x == y);
        assert(a.add(b).count(x) >= 2);
    }
}

proof fn lemma_submap_trans<T>(
    a: Map<Seq<char>, Seq<T>>,
    b: Map<Seq<char>, Seq<T>>,
    c: Map<Seq<char>, Seq<T>>,
)
    requires
        a.submap_of(b),
        b.submap_of(c),
    ensures
        a.submap_of(c),
{
    assert forall|k: Seq<char>| #[trigger] a.dom().contains(k) implies c.dom().contains(k) && a[k]
        == c[k] by {
        lemma_submap_get(a, b, k);
        lemma_submap_get(b, c, k);
    }
}

proof fn lemma_remove_submap<T>(m: Map<Seq<char>, Seq<T>>, k: Seq<char>)
    ensures
        m.remove(k).submap_of(m),
{
    assert forall|j: Seq<char>| #[trigger] m.remove(k).dom().contains(j) implies m.dom().contains(j)
        && m.remove(k)[j] == m[j] by {}
}

/// One step of `build_children`: with unique ids, the node just built is
/// exact, and so is the forest so far.
proof fn lemma_exact_step<D, C>(
    p: Seq<char>,
    goals: Seq<GoalTreeItem>,
    i: int,
    old_out: Seq<GoalChildNode<D, C>>,
    node: GoalChildNode<D, C>,
    children: Seq<GoalChildNode<D, C>>,
    t0: Multiset<GoalTreeItem>,
    tb: Multiset<GoalTreeItem>,
    ta_after: Multiset<GoalTreeItem>,
    c0: Map<Seq<char>, Seq<GoalTreeItem>>,
    d0: Map<Seq<char>, Seq<D>>,
    m0: Map<Seq<char>, Seq<C>>,
    cb: Map<Seq<char>, Seq<GoalTreeItem>>,
    db: Map<Seq<char>, Seq<D>>,
    mb: Map<Seq<char>, Seq<C>>,
    dm: Map<Seq<char>, Seq<D>>,
    mm: Map<Seq<char>, Seq<C>>,
)
    requires
        ids_unique(t0),
        !has_goal_id(t0, p),
        0 <= i < goals.len(),
        node.goal == goals[i],
        node.children matches Some(v) && v@ == children,
        tree_goals(old_out).add(tb).add(goals.skip(i).to_multiset()) == t0,
        tree_goals(children).add(ta_after) == tb,
        tree_exact(old_out, c0, d0, m0),
        cb.submap_of(c0),
        db.submap_of(d0),
        mb.submap_of(m0),
        dm.submap_of(db),
        mm.submap_of(mb),
        forall|k: Seq<char>|
            #![auto]
            c0.contains_key(k) && !cb.contains_key(k) ==> k == p || has_goal_id(
                tree_goals(old_out),
                k,
            ),
        forall|k: Seq<char>|
            #![auto]
            d0.contains_key(k) && !db.contains_key(k) ==> has_goal_id(tree_goals(old_out), k),
        forall|k: Seq<char>|
            #![auto]
            m0.contains_key(k) && !mb.contains_key(k) ==> has_goal_id(tree_goals(old_out), k),
        forall|k: Seq<char>|
            #![auto]
            db.contains_key(k) && !dm.contains_key(k) ==> has_goal_id(tree_goals(children), k),
        forall|k: Seq<char>|
            #![auto]
            mb.contains_key(k) && !mm.contains_key(k) ==> has_goal_id(tree_goals(children), k),
        goals_of(children) == group_of(cb, node.goal.id@),
        ids_unique(tb) && !has_goal_id(tb, node.goal.id@) ==> tree_exact(children, cb, db, mb),
        opt_list(node.deliverables) == list_of(dm, node.goal.id@),
        opt_list(node.comments) == list_of(mm, node.goal.id@),
    ensures
        tree_exact(old_out.push(node), c0, d0, m0),
{
    broadcast use vstd::multiset::group_multiset_axioms;
    let a = tree_goals(old_out);
    let s = goals.skip(i).to_multiset();
    let g = node.goal;
    let id = g.id@;
    assert(tb.subset_of(t0));
    assert(a.add(tb).subset_of(t0));
    assert(tb.add(a).subset_of(t0));
    assert(s.add(a).subset_of(t0));
    assert(s.add(tb).subset_of(t0));
    assert(s.count(g) > 0) by {
        goals.skip(i).to_multiset_ensures();
        assert(goals.skip(i)[0] == g);
        assert(goals.skip(i).contains(g));
    }
    assert(has_goal_id(s, id));
    lemma_unique_sub(tb, t0);
    lemma_parts_disjoint_ids(s, tb, t0, id);
    lemma_parts_disjoint_ids(s, a, t0, id);
    assert(t0.count(g) > 0);
    let tc = tree_goals(children);
    assert(tc.subset_of(tb));
    // the subtree is exact for the maps as they were at the start
    assert forall|x: GoalTreeItem| #[trigger]
        tc.count(x) > 0 implies group_of(cb, x.id@) == group_of(c0, x.id@) && list_of(db, x.id@)
        == list_of(d0, x.id@) && list_of(mb, x.id@) == list_of(m0, x.id@) by {
        let k = x.id@;
        assert(tb.count(x) > 0);
        assert(has_goal_id(tb, k));
        lemma_parts_disjoint_ids(tb, a, t0, k);
        assert(t0.count(x) > 0);
        assert(k != p);
        if cb.contains_key(k) {
            lemma_submap_get(cb, c0, k);
        }
        if db.contains_key(k) {
            lemma_submap_get(db, d0, k);
        }
        if mb.contains_key(k) {
            lemma_submap_get(mb, m0, k);
        }
    }
    lemma_tree_exact_transfer(children, cb, db, mb, c0, d0, m0);
    // the node itself
    assert(id != p);
    if cb.contains_key(id) {
        lemma_submap_get(cb, c0, id);
    }
    assert(group_of(cb, id) == group_of(c0, id));
    lemma_submap_trans(dm, db, d0);
    lemma_submap_trans(mm, mb, m0);
    if dm.contains_key(id) {
        lemma_submap_get(dm, d0, id);
    } else if d0.contains_key(id) {
        if db.contains_key(id) {
            lemma_id_sub(tc, tb, id);
        }
    }
    assert(list_of(dm, id) == list_of(d0, id));
    if mm.contains_key(id) {
        lemma_submap_get(mm, m0, id);
    } else if m0.contains_key(id) {
        if mb.contains_key(id) {
            lemma_id_sub(tc, tb, id);
        }
    }
    assert(list_of(mm, id) == list_of(m0, id));
    let out = old_out.push(node);
    assert(out.drop_last() =~= old_out);
    assert(out.last() == node);
}

proof fn lemma_tree_goals_push<D, C>(nodes: Seq<GoalChildNode<D, C>>, n: GoalChildNode<D, C>, cs: Seq<GoalChildNode<D, C>>)
    requires
        n.children matches Some(v) && v@ == cs,
    ensures
        tree_goals(nodes.push(n)) == tree_goals(nodes).insert(n.goal).add(tree_goals(cs)),
        goals_of(nodes.push(n)) == goals_of(nodes).push(n.goal),
{
    assert(nodes.push(n).drop_last() =~= nodes);
    assert(goals_of(nodes.push(n)) =~= goals_of(nodes).push(n.goal));
}

impl<D, C> GoalChildNode<D, C> {
    /// The subtrees under `parent_id`: each child of `parent_id` in
    /// `children_map` with its own subtree and the deliverables and comments
    /// of its id, each list taken out of its map as it is used (so that a
    /// list is used once and the recursion ends).
    pub fn build_children(
        parent_id: &str,
        children_map: &mut GroupMap<GoalTreeItem>,
        deliverables_map: &mut GroupMap<D>,
        comments_map: &mut GroupMap<C>,
    ) -> (r: Vec<Self>)
        ensures
            goals_of(r@) == group_of(old(children_map)@, parent_id@),
            final(children_map)@.submap_of(old(children_map)@),
            final(deliverables_map)@.submap_of(old(deliverables_map)@),
            final(comments_map)@.submap_of(old(comments_map)@),
            !final(children_map)@.contains_key(parent_id@),
            final(children_map).size() <= old(children_map).size(),
            tree_shape_ok(r@, old(children_map)@, old(deliverables_map)@, old(comments_map)@),
            tree_goals(r@).add(final(children_map).total()) == old(children_map).total(),
            forall|k: Seq<char>|
                #![auto]
                old(children_map)@.contains_key(k) && !final(children_map)@.contains_key(k) ==> k
                    == parent_id@ || has_goal_id(tree_goals(r@), k),
            forall|k: Seq<char>|
                #![auto]
                old(deliverables_map)@.contains_key(k) && !final(deliverables_map)@.contains_key(k)
                    ==> has_goal_id(tree_goals(r@), k),
            forall|k: Seq<char>|
                #![auto]
                old(comments_map)@.contains_key(k) && !final(comments_map)@.contains_key(k)
                    ==> has_goal_id(tree_goals(r@), k),
            ids_unique(old(children_map).total()) && !has_goal_id(
                old(children_map).total(),
                parent_id@,
            ) ==> tree_exact(r@, old(children_map)@, old(deliverables_map)@, old(comments_map)@),
            forall|g: GoalTreeItem|
                #[trigger] tree_goals(r@).count(g) > 0 ==> !final(children_map)@.contains_key(g.id@),
        decreases old(children_map).size(),
    {
        broadcast use vstd::multiset::group_multiset_axioms;
        let ghost c0 = children_map@;
        let ghost d0 = deliverables_map@;
        let ghost m0 = comments_map@;
        let ghost t0 = children_map.total();
        let ghost s0 = children_map.size();
        match children_map.take(parent_id) {
            None => {
                proof {
                    assert(c0.remove(parent_id@) =~= c0);
                    lemma_remove_submap(c0, parent_id@);
                    lemma_remove_submap(d0, parent_id@);
                    lemma_remove_submap(m0, parent_id@);
                    assert(d0.submap_of(d0)) by {
                        assert forall|k: Seq<char>| #[trigger] d0.dom().contains(k) implies d0.dom().contains(k) && d0[k] == d0[k] by {}
                    }
                    assert(m0.submap_of(m0)) by {
                        assert forall|k: Seq<char>| #[trigger] m0.dom().contains(k) implies m0.dom().contains(k) && m0[k] == m0[k] by {}
                    }
                    let e: Seq<Self> = Seq::empty();
                    assert(goals_of(e) =~= Seq::<GoalTreeItem>::empty());
                    assert(tree_goals(e).add(children_map.total()) =~= t0);
                }
                Vec::new()
            },
            Some(goals) => {
                let ghost ct = children_map@;
                proof {
                    lemma_remove_submap(c0, parent_id@);
                    assert(goals@.skip(0) =~= goals@);
                    assert forall|k: Seq<char>| #[trigger] d0.dom().contains(k) implies d0.dom().contains(k) && d0[k] == d0[k] by {}
                    assert forall|k: Seq<char>| #[trigger] m0.dom().contains(k) implies m0.dom().contains(k) && m0[k] == m0[k] by {}
                    assert forall|k: Seq<char>| #[trigger] ct.dom().contains(k) implies ct.dom().contains(k) && ct[k] == ct[k] by {}
                    let e: Seq<Self> = Seq::empty();
                    assert(goals_of(e) =~= goals@.take(0));
                    assert(tree_goals(e).add(children_map.total()).add(goals@.skip(0).to_multiset()) =~= t0);
                }
                let mut out: Vec<Self> = Vec::new();
                let mut i: usize = 0;
                while i < goals.len()
                    invariant
                        i <= goals.len(),
                        c0.contains_key(parent_id@),
                        goals@ == c0[parent_id@],
                        ct == c0.remove(parent_id@),
                        ct.submap_of(c0),
                        goals_of(out@) == goals@.take(i as int),
                        children_map@.submap_of(ct),
                        deliverables_map@.submap_of(d0),
                        comments_map@.submap_of(m0),
                        children_map.size() < s0,
                        s0 == old(children_map).size(),
                        tree_shape_ok(out@, c0, d0, m0),
                        tree_goals(out@).add(children_map.total()).add(goals@.skip(i as int).to_multiset())
                            == t0,
                        forall|k: Seq<char>|
                            #![auto]
                            c0.contains_key(k) && !children_map@.contains_key(k) ==> k == parent_id@
                                || has_goal_id(tree_goals(out@), k),
                        forall|k: Seq<char>|
                            #![auto]
                            d0.contains_key(k) && !deliverables_map@.contains_key(k) ==> has_goal_id(
                                tree_goals(out@),
                                k,
                            ),
                        forall|k: Seq<char>|
                            #![auto]
                            m0.contains_key(k) && !comments_map@.contains_key(k) ==> has_goal_id(
                                tree_goals(out@),
                                k,
                            ),
                        ids_unique(t0) && !has_goal_id(t0, parent_id@) ==> tree_exact(
                            out@,
                            c0,
                            d0,
                            m0,
                        ),
                        forall|g: GoalTreeItem|
                            #[trigger] tree_goals(out@).count(g) > 0 ==> !children_map@.contains_key(
                                g.id@,
                            ),
                    decreases goals.len() - i,
                {
                    let goal = goals[i].duplicate();
                    let ghost tb = children_map.total();
                    let ghost cb = children_map@;
                    let ghost db = deliverables_map@;
                    let ghost mb = comments_map@;
                    let children = Self::build_children(
                        goal.id.as_str(),
                        children_map,
                        deliverables_map,
                        comments_map,
                    );
                    let ghost dm = deliverables_map@;
                    let deliverables = deliverables_map.take(goal.id.as_str());
                    let ghost mm = comments_map@;
                    let comments = comments_map.take(goal.id.as_str());
                    let ghost id = goal.id@;
                    proof {
                        lemma_submap_trans(children_map@, cb, ct);
                        lemma_remove_submap(dm, id);
                        lemma_submap_trans(deliverables_map@, dm, db);
                        lemma_submap_trans(deliverables_map@, db, d0);
                        lemma_remove_submap(mm, id);
                        lemma_submap_trans(comments_map@, mm, mb);
                        lemma_submap_trans(comments_map@, mb, m0);
                        lemma_submap_trans(cb, ct, c0);
                        lemma_submap_trans(dm, db, d0);
                        lemma_submap_trans(mm, mb, m0);
                        lemma_tree_shape_widen(children@, cb, db, mb, c0, d0, m0);
                        if cb.contains_key(id) {
                            lemma_submap_get(cb, c0, id);
                            assert(group_of(cb, id) == group_of(c0, id));
                        } else {
                            assert(goals_of(children@).len() == children@.len());
                            assert(children@.len() == 0);
                        }
                        if deliverables is Some {
                            lemma_submap_get(dm, d0, id);
                        }
                        if comments is Some {
                            lemma_submap_get(mm, m0, id);
                        }
                    }
                    let ghost old_out = out@;
                    let node = GoalChildNode {
                        goal: goal,
                        deliverables: deliverables,
                        comments: comments,
                        children: Some(children),
                    };
                    out.push(node);
                    proof {
                        lemma_tree_goals_push(old_out, node, children@);
                        assert forall|g: GoalTreeItem|
                            #[trigger] tree_goals(out@).count(g) > 0 implies !children_map@.contains_key(
                                g.id@,
                            ) by {
                            if tree_goals(old_out).count(g) > 0 {
                                assert(!cb.contains_key(g.id@));
                            } else if g != goal {
                                assert(tree_goals(children@).count(g) > 0);
                            }
                        }
                    }
                    proof {
                        assert(out@ == old_out.push(node));
                        assert(out@.drop_last() =~= old_out);
                        assert(out@.last() == node);
                        assert(tree_shape_ok(out@, c0, d0, m0));
                        assert(goals@.take(i + 1) =~= goals@.take(i as int).push(goals@[i as int]));
                        assert(goals@.skip(i as int).to_multiset() =~= goals@.skip(i + 1).to_multiset().insert(
                            goals@[i as int],
                        )) by {
                            vstd::seq_lib::to_multiset_remove(goals@.skip(i as int), 0);
                            assert(goals@.skip(i as int).remove(0) =~= goals@.skip(i + 1));
                            goals@.skip(i as int).to_multiset_ensures();
                            assert(goals@.skip(i as int).contains(goals@[i as int])) by {
                                assert(goals@.skip(i as int)[0] == goals@[i as int]);
                            }
                        }
                        assert(tree_goals(out@).add(children_map.total()).add(
                            goals@.skip(i + 1).to_multiset(),
                        ) =~= t0);
                        let ta = tree_goals(old_out);
                        let tc = tree_goals(children@);
                        let tn = tree_goals(out@);
                        assert(ta.subset_of(tn));
                        assert(tc.subset_of(tn));
                        assert(tn.count(goal) > 0);
                        assert(has_goal_id(tn, id));
                        assert forall|k: Seq<char>|
                            #![auto]
                            c0.contains_key(k) && !children_map@.contains_key(k) implies k
                            == parent_id@ || has_goal_id(tn, k) by {
                            if cb.contains_key(k) {
                                if k != id {
                                    lemma_id_sub(tc, tn, k);
                                }
                            } else if k != parent_id@ {
                                lemma_id_sub(ta, tn, k);
                            }
                        }
                        assert forall|k: Seq<char>|
                            #![auto]
                            d0.contains_key(k) && !deliverables_map@.contains_key(k) implies has_goal_id(tn, k) by {
                            if k != id {
                                if dm.contains_key(k) {
                                } else if db.contains_key(k) {
                                    lemma_id_sub(tc, tn, k);
                                } else {
                                    lemma_id_sub(ta, tn, k);
                                }
                            }
                        }
                        assert forall|k: Seq<char>|
                            #![auto]
                            m0.contains_key(k) && !comments_map@.contains_key(k) implies has_goal_id(tn, k) by {
                            if k != id {
                                if mm.contains_key(k) {
                                } else if mb.contains_key(k) {
                                    lemma_id_sub(tc, tn, k);
                                } else {
                                    lemma_id_sub(ta, tn, k);
                                }
                            }
                        }
                        if ids_unique(t0) && !has_goal_id(t0, parent_id@) {
                            lemma_exact_step(
                                parent_id@,
                                goals@,
                                i as int,
                                old_out,
                                node,
                                children@,
                                t0,
                                tb,
                                children_map.total(),
                                c0,
                                d0,
                                m0,
                                cb,
                                db,
                                mb,
                                dm,
                                mm,
                            );
                        }
                    }
                    i = i + 1;
                }
                proof {
                    assert(goals@.take(goals.len() as int) =~= goals@);
                    assert(goals@.skip(goals.len() as int) =~= Seq::<GoalTreeItem>::empty());
                    Seq::<GoalTreeItem>::empty().to_multiset_ensures();
                    vstd::multiset::lemma_multiset_empty_len(Seq::<GoalTreeItem>::empty().to_multiset());
                    lemma_submap_trans(children_map@, ct, c0);
                    if children_map@.contains_key(parent_id@) {
                        lemma_submap_get(children_map@, ct, parent_id@);
                    }
                }
                out
            },
        }
    }
}

/// The goals of `goals` grouped by parent id.
pub open spec fn parent_groups(goals: Seq<GoalTreeItem>) -> Map<Seq<char>, Seq<GoalTreeItem>> {
    Map::new(|p: Seq<char>| children_of(goals, p).len() > 0, |p: Seq<char>| children_of(goals, p))
}

proof fn lemma_tree_shape_regroup<D, C>(
    nodes: Seq<GoalChildNode<D, C>>,
    g1: Map<Seq<char>, Seq<GoalTreeItem>>,
    g2: Map<Seq<char>, Seq<GoalTreeItem>>,
    d: Map<Seq<char>, Seq<D>>,
    c: Map<Seq<char>, Seq<C>>,
)
    requires
        tree_shape_ok(nodes, g1, d, c),
        forall|k: Seq<char>| #[trigger] group_of(g1, k) == group_of(g2, k),
    ensures
        tree_shape_ok(nodes, g2, d, c),
    decreases nodes,
{
    if nodes.len() > 0 {
        lemma_tree_shape_regroup(nodes.drop_last(), g1, g2, d, c);
        let n = nodes.last();
        assert(group_of(g1, n.goal.id@) == group_of(g2, n.goal.id@));
        if let Some(cs) = n.children {
            lemma_tree_shape_regroup(cs@, g1, g2, d, c);
        }
    }
}

/// Whether no two goals of `goals` share an id.
pub open spec fn goal_ids_distinct(goals: Seq<GoalTreeItem>) -> bool {
    forall|i: int, j: int|
        0 <= i < goals.len() && 0 <= j < goals.len() && i != j ==> (#[trigger] goals[i]).id@
            != (#[trigger] goals[j]).id@
}

/// Whether some goal of `goals` has the id `k`.
pub open spec fn goal_id_in(goals: Seq<GoalTreeItem>, k: Seq<char>) -> bool {
    exists|i: int| 0 <= i < goals.len() && (#[trigger] goals[i]).id@ == k
}

proof fn lemma_seq_ids_unique(goals: Seq<GoalTreeItem>)
    requires
        goal_ids_distinct(goals),
    ensures
        ids_unique(goals.to_multiset()),
    decreases goals.len(),
{
    broadcast use vstd::multiset::group_multiset_axioms;
    if goals.len() == 0 {
        goals.to_multiset_ensures();
        vstd::multiset::lemma_multiset_empty_len(goals.to_multiset());
    } else {
        let init = goals.drop_last();
        let g = goals.last();
        assert(goals =~= init.push(g));
        assert forall|a: int, b: int|
            0 <= a < init.len() && 0 <= b < init.len() && a != b implies (#[trigger] init[a]).id@
            != (#[trigger] init[b]).id@ by {
            assert(init[a] == goals[a]);
            assert(init[b] == goals[b]);
        }
        lemma_seq_ids_unique(init);
        vstd::seq_lib::to_multiset_build(init, g);
        init.to_multiset_ensures();
        let m = goals.to_multiset();
        assert forall|x: GoalTreeItem, y: GoalTreeItem|
            m.count(x) > 0 && m.count(y) > 0 && x.id@ == y.id@ implies x == y && m.count(x) == 1 by {
            if init.to_multiset().count(x) > 0 {
                assert(init.contains(x));
                let j = choose|j: int| 0 <= j < init.len() && init[j] == x;
                assert(goals[j] == x);
                assert(goals[goals.len() - 1] == g);
                assert(x != g);
            }
            if init.to_multiset().count(y) > 0 {
                assert(init.contains(y));
                let j = choose|j: int| 0 <= j < init.len() && init[j] == y;
                assert(goals[j] == y);
                assert(goals[goals.len() - 1] == g);
            }
            if init.to_multiset().count(g) > 0 {
                assert(init.contains(g));
                let j = choose|j: int| 0 <= j < init.len() && init[j] == g;
                assert(goals[j] == g);
                assert(goals[goals.len() - 1] == g);
            }
        }
    }
}

proof fn lemma_with_parent_sub(goals: Seq<GoalTreeItem>)
    ensures
        with_parent(goals).to_multiset().subset_of(goals.to_multiset()),
    decreases goals.len(),
{
    broadcast use vstd::multiset::group_multiset_axioms;
    if goals.len() > 0 {
        let init = goals.drop_last();
        let g = goals.last();
        lemma_with_parent_sub(init);
        assert(goals =~= init.push(g));
        init.lemma_filter_push(g, |x: GoalTreeItem| x.parent_id is Some);
        vstd::seq_lib::to_multiset_build(init, g);
        if g.parent_id is Some {
            vstd::seq_lib::to_multiset_build(with_parent(init), g);
        }
    } else {
        assert(with_parent(goals) =~= goals) by {
            reveal(Seq::filter);
        }
    }
}

impl<D, C> GoalNode<D, C> {
    /// The forest below `root_id`: the goals are grouped by parent, then the
    /// subtrees are built from the root down.
    pub fn build_forest(
        root_id: &str,
        goals: Vec<GoalTreeItem>,
        deliverables_map: GroupMap<D>,
        comments_map: GroupMap<C>,
    ) -> (r: Vec<GoalChildNode<D, C>>)
        ensures
            goals_of(r@) == children_of(goals@, root_id@),
            tree_shape_ok(r@, parent_groups(goals@), deliverables_map@, comments_map@),
            tree_goals(r@).subset_of(goals@.to_multiset()),
            goal_ids_distinct(goals@) && !goal_id_in(goals@, root_id@) ==> tree_exact(
                r@,
                parent_groups(goals@),
                deliverables_map@,
                comments_map@,
            ),
    {
        broadcast use vstd::multiset::group_multiset_axioms;
        let mut deliverables_map = deliverables_map;
        let mut comments_map = comments_map;
        let mut children_map: GroupMap<GoalTreeItem> = GroupMap::new();
        let ghost pw = |x: GoalTreeItem| x.parent_id is Some;
        proof {
            assert(goals@.take(0) =~= Seq::<GoalTreeItem>::empty());
            reveal(Seq::filter);
            assert(with_parent(goals@.take(0)) =~= Seq::<GoalTreeItem>::empty());
            Seq::<GoalTreeItem>::empty().to_multiset_ensures();
            vstd::multiset::lemma_multiset_empty_len(Seq::<GoalTreeItem>::empty().to_multiset());
            assert(children_map.total() == Multiset::<GoalTreeItem>::empty()) by {
                reveal(GroupMap::total);
            }
        }
        let mut i: usize = 0;
        while i < goals.len()
            invariant
                i <= goals.len(),
                pw == (|x: GoalTreeItem| x.parent_id is Some),
                forall|p: Seq<char>| #[trigger] group_of(children_map@, p) == children_of(goals@.take(i as int), p),
                children_map.total() == with_parent(goals@.take(i as int)).to_multiset(),
            decreases goals.len() - i,
        {
            let g = goals[i].duplicate();
            let ghost before = children_map@;
            let ghost prefix = goals@.take(i as int);
            proof {
                assert(goals@.take(i + 1) =~= prefix.push(g));
                prefix.lemma_filter_push(g, pw);
                vstd::seq_lib::to_multiset_build(with_parent(prefix), g);
                assert forall|p: Seq<char>| #[trigger] children_of(goals@.take(i + 1), p) == if opt_view(
                    g.parent_id,
                ) == Some(p) {
                    children_of(prefix, p).push(g)
                } else {
                    children_of(prefix, p)
                } by {
                    prefix.lemma_filter_push(g, |x: GoalTreeItem| opt_view(x.parent_id) == Some(p));
                }
            }
            match &goals[i].parent_id {
                Some(p) => {
                    let key = p.clone();
                    children_map.push_into(key, g);
                    proof {
                        assert forall|q: Seq<char>| #[trigger] group_of(children_map@, q) == children_of(
                            goals@.take(i + 1),
                            q,
                        ) by {
                            assert(group_of(before, q) == children_of(prefix, q));
                        }
                    }
                },
                None => {
                    proof {
                        assert forall|q: Seq<char>| #[trigger] group_of(children_map@, q) == children_of(
                            goals@.take(i + 1),
                            q,
                        ) by {
                            assert(group_of(before, q) == children_of(prefix, q));
                        }
                    }
                },
            }
            i = i + 1;
        }
        proof {
            assert(goals@.take(goals.len() as int) =~= goals@);
        }
        let ghost groups = children_map@;
        let ghost d0 = deliverables_map@;
        let ghost m0 = comments_map@;
        let ghost t0 = children_map.total();
        let r = GoalChildNode::build_children(
            root_id,
            &mut children_map,
            &mut deliverables_map,
            &mut comments_map,
        );
        proof {
            assert forall|k: Seq<char>| #[trigger] group_of(groups, k) == group_of(parent_groups(goals@), k) by {
                assert(group_of(groups, k) == children_of(goals@, k));
            }
            assert(group_of(groups, root_id@) == children_of(goals@, root_id@));
            lemma_tree_shape_regroup(r@, groups, parent_groups(goals@), d0, m0);
            lemma_with_parent_sub(goals@);
            assert(tree_goals(r@).subset_of(t0));
            if goal_ids_distinct(goals@) && !goal_id_in(goals@, root_id@) {
                lemma_seq_ids_unique(goals@);
                lemma_unique_sub(t0, goals@.to_multiset());
                if has_goal_id(t0, root_id@) {
                    lemma_id_sub(t0, goals@.to_multiset(), root_id@);
                    let x = choose|x: GoalTreeItem| #[trigger] goals@.to_multiset().count(x) > 0 && x.id@ == root_id@;
                    goals@.to_multiset_ensures();
                    assert(goals@.contains(x));
                }
                assert forall|x: GoalTreeItem| #[trigger]
                    tree_goals(r@).count(x) > 0 implies group_of(groups, x.id@) == group_of(
                    parent_groups(goals@),
                    x.id@,
                ) && list_of(d0, x.id@) == list_of(d0, x.id@) && list_of(m0, x.id@) == list_of(
                    m0,
                    x.id@,
                ) by {
                    assert(group_of(groups, x.id@) == group_of(parent_groups(goals@), x.id@));
                }
                lemma_tree_exact_transfer(r@, groups, d0, m0, parent_groups(goals@), d0, m0);
            }
        }
        r
    }
}

/// A goal as `GET /goals/{id}` returns it.
#[derive(Debug)]
pub struct Goal {
    pub id: String,
    pub title: String,
    pub description: Option<String>,
    pub parent_id: Option<String>,
    pub owner: Option<GoalOwner>,
    pub due_date: Option<String>,
    pub body: Option<String>,
    pub status: Option<GoalStatus>,
    pub is_completed: bool,
}

/// A goal with what was fetched for it and, when the subtree was fetched,
/// the forest below it.
#[derive(Debug)]
pub struct GoalNode<D, C> {
    pub goal: Goal,
    pub deliverables: Option<Vec<D>>,
    pub comments: Option<Vec<C>>,
    pub children: Option<Vec<GoalChildNode<D, C>>>,
}

impl<D, C> GoalNode<D, C> {
    /// The tree of `goal get`: the goal itself with its deliverables and
    /// comments, and the forest of its subtree items below it.
    pub fn build_tree(
        goal: Goal,
        deliverables: Option<Vec<D>>,
        comments: Option<Vec<C>>,
        children: Option<Vec<GoalTreeItem>>,
        children_deliverables: GroupMap<D>,
        children_comments: GroupMap<C>,
    ) -> (r: Self)
        ensures
            r.goal == goal,
            r.deliverables == deliverables,
            r.comments == comments,
            match children {
                None => r.children is None,
                Some(items) => r.children matches Some(forest) && {
                    &&& goals_of(forest@) == children_of(items@, goal.id@)
                    &&& tree_shape_ok(
                        forest@,
                        parent_groups(items@),
                        children_deliverables@,
                        children_comments@,
                    )
                    &&& tree_goals(forest@).subset_of(items@.to_multiset())
                    &&& goal_ids_distinct(items@) && !goal_id_in(items@, goal.id@) ==> tree_exact(
                        forest@,
                        parent_groups(items@),
                        children_deliverables@,
                        children_comments@,
                    )
                },
            },
    {
        let forest = match children {
            Some(items) => Some(
                Self::build_forest(
                    goal.id.as_str(),
                    items,
                    children_deliverables,
                    children_comments,
                ),
            ),
            None => None,
        };
        GoalNode { goal, comments, deliverables, children: forest }
    }
}

} // verus!
