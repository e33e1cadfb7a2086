//! Activity logs: event-type and category filters.

use vstd::prelude::*;
use crate::text::{csv_items, csv_split, views};

verus! {

#[derive(Debug)]
pub enum ActivityCommands {
    /// List a member's activity log (defaults to your own)
    List {
        /// Organization ID (uses default if not specified)
        org: Option<String>,
        /// Member ID (defaults to yourself)
        member: Option<String>,
        /// Filter from this date (RFC3339, e.g. 2026-07-01T00:00:00Z)
        start: Option<String>,
        /// Filter until this date (RFC3339)
        end: Option<String>,
        /// Filter by event type. Comma-separated or repeatable.
        event_type: Vec<String>,
        /// Filter by event category. Comma-separated or repeatable.
        event_category: Vec<String>,
        /// Max items to return (1-1000, default 50)
        limit: Option<u32>,
        /// Pagination offset
        offset: Option<u32>,
        /// Output as JSON
        json: bool,
    },
    /// Show a goal's activity log
    Goal {
        /// Goal ID
        goal_id: String,
        /// Organization ID (uses default if not specified)
        org: Option<String>,
        /// Filter from this date (RFC3339)
        start: Option<String>,
        /// Filter until this date (RFC3339)
        end: Option<String>,
        /// Filter by event type. Comma-separated or repeatable.
        event_type: Vec<String>,
        /// Include immediate child goals' activity
        include_children: bool,
        /// Max items to return (1-1000, default 50)
        limit: Option<u32>,
        /// Pagination offset
        offset: Option<u32>,
        /// Output as JSON
        json: bool,
    },
    /// Show an organization-wide activity summary
    Summary {
        /// Organization ID (uses default if not specified)
        org: Option<String>,
        /// Filter from this date (RFC3339)
        start: Option<String>,
        /// Filter until this date (RFC3339)
        end: Option<String>,
        /// Output as JSON
        json: bool,
    },
    /// Show a goal's activity summary widget (created/completed counts by member)
    GoalSummary {
        /// Goal ID
        goal_id: String,
        /// Organization ID (uses default if not specified)
        org: Option<String>,
        /// Filter from this date (RFC3339)
        start: Option<String>,
        /// Filter until this date (RFC3339)
        end: Option<String>,
        /// Include descendant goals' activity (recursive)
        include_children: bool,
        /// Max members to return (1-50, default 10)
        limit: Option<u32>,
        /// Output as JSON
        json: bool,
    },
}

/// The comma-separated items of every value in `raw`, in order.
pub open spec fn flatten_csv(raw: Seq<Seq<char>>) -> Seq<Seq<char>>
    decreases raw.len(),
{
    if raw.len() == 0 {
        Seq::<Seq<char>>::empty()
    } else {
        flatten_csv(raw.drop_last()) + csv_items(raw.last())
    }
}

/// Splits a comma-separated list into its trimmed, non-empty items.
pub fn split_csv(csv: &str) -> (r: Vec<String>)
    ensures
        views(r@) == csv_items(csv@),
{
    csv_split(csv)
}

/// `--event-type`/`--event-category` accept both repeated flags and
/// comma-separated values: the items of every value, in order.
pub fn flatten_values(raw: &[String]) -> (r: Vec<String>)
    ensures
        views(r@) == flatten_csv(views(raw@)),
{
    let mut out: Vec<String> = Vec::new();
    let mut i: usize = 0;
    while i < raw.len()
        invariant
            i <= raw.len(),
            views(out@) == flatten_csv(views(raw@.take(i as int))),
        decreases raw.len() - i,
    {
        let items = split_csv(raw[i].as_str());
        let ghost before = out@;
        let mut j: usize = 0;
        while j < items.len()
            invariant
                j <= items.len(),
                views(out@) == views(before) + views(items@.take(j as int)),
            decreases items.len() - j,
        {
            let ghost prev = out@;
            out.push(items[j].clone());
            assert(views(items@.take(j + 1)) =~= views(items@.take(j as int)).push(items@[j as int]@));
            assert(views(out@) =~= views(prev).push(items@[j as int]@));
            j = j + 1;
        }
        assert(items@.take(items.len() as int) =~= items@);
        assert(views(raw@.take(i + 1)).drop_last() =~= views(raw@.take(i as int)));
        assert(views(raw@.take(i + 1)).last() == raw@[i as int]@);
        i = i + 1;
    }
    assert(raw@.take(raw.len() as int) =~= raw@);
    out
}

} // verus!
