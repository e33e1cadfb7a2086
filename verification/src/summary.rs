//! The goal summary: how many goals are completed, in progress, stalled,
//! not started or cancelled.

use vstd::prelude::*;
use crate::goal::{GoalStatus, GoalTreeItem, status_filter_spec};

verus! {

/// The bucket of a goal: completion wins, then the status; a goal without
/// a status counts as not started.
pub open spec fn class_of(item: GoalTreeItem) -> Seq<char> {
    if item.is_completed {
        "completed"@
    } else {
        match item.status {
            Some(GoalStatus::InProgress) => "in_progress"@,
            Some(GoalStatus::Cancelled) => "cancelled"@,
            _ => "not_started"@,
        }
    }
}

pub fn classify(item: &GoalTreeItem) -> (r: &'static str)
    ensures
        r@ == class_of(*item),
{
    if item.is_completed {
        return "completed";
    }
    match item.status {
        Some(GoalStatus::InProgress) => "in_progress",
        Some(GoalStatus::Cancelled) => "cancelled",
        _ => "not_started",
    }
}

/// A goal as the summary lists it.
#[derive(Debug)]
pub struct GoalSummaryItem {
    pub id: String,
    pub title: String,
    pub owner: Option<String>,
}

pub open spec fn summary_item_of(item: GoalTreeItem) -> GoalSummaryItem {
    GoalSummaryItem {
        id: item.id,
        title: item.title,
        owner: match item.owner {
            Some(o) => Some(o.name),
            None => None,
        },
    }
}

pub fn to_summary_item(item: &GoalTreeItem) -> (r: GoalSummaryItem)
    ensures
        r == summary_item_of(*item),
{
    GoalSummaryItem {
        id: item.id.clone(),
        title: item.title.clone(),
        owner: match &item.owner {
            Some(o) => Some(o.name.clone()),
            None => None,
        },
    }
}

/// The counts and lists of `summary`.
#[derive(Debug)]
pub struct SummaryData {
    pub total: usize,
    pub completed: usize,
    pub in_progress: usize,
    pub not_started: usize,
    pub cancelled: usize,
    pub completed_goals: Vec<GoalSummaryItem>,
    pub in_progress_goals: Vec<GoalSummaryItem>,
    pub stalled_goals: Vec<GoalSummaryItem>,
    pub not_started_goals: Vec<GoalSummaryItem>,
}

/// In the `completed` bucket.
pub open spec fn is_completed_goal(item: GoalTreeItem) -> bool {
    item.is_completed
}

/// In the `in_progress` bucket.
pub open spec fn is_in_progress_goal(item: GoalTreeItem) -> bool {
    !item.is_completed && item.status == Some(GoalStatus::InProgress)
}

/// In the `cancelled` bucket.
pub open spec fn is_cancelled_goal(item: GoalTreeItem) -> bool {
    !item.is_completed && item.status == Some(GoalStatus::Cancelled)
}

/// In the `not_started` bucket.
pub open spec fn is_not_started_goal(item: GoalTreeItem) -> bool {
    !item.is_completed && item.status != Some(GoalStatus::InProgress) && item.status != Some(
        GoalStatus::Cancelled,
    )
}

/// Not started, with children that are not moving either.
pub open spec fn is_stalled_goal(item: GoalTreeItem) -> bool {
    is_not_started_goal(item) && item.has_children
}

/// Not started and without children.
pub open spec fn is_idle_goal(item: GoalTreeItem) -> bool {
    is_not_started_goal(item) && !item.has_children
}

/// The bucket names of `classify` match the bucket predicates.
pub proof fn class_names_match_buckets(item: GoalTreeItem)
    ensures
        is_completed_goal(item) ==> class_of(item) == "completed"@,
        is_in_progress_goal(item) ==> class_of(item) == "in_progress"@,
        is_cancelled_goal(item) ==> class_of(item) == "cancelled"@,
        is_not_started_goal(item) ==> class_of(item) == "not_started"@,
{
}

/// `goal list --status` and the summary agree: each status filter keeps
/// exactly the goals of the bucket of that name, so a goal the summary
/// counts as not started (one whose status is missing or `NONE`) is listed
/// by `--status not_started`.
pub proof fn status_filters_match_classes(item: GoalTreeItem)
    ensures
        status_filter_spec(item, "NOT_STARTED"@) <==> class_of(item) == "not_started"@,
        status_filter_spec(item, "IN_PROGRESS"@) <==> class_of(item) == "in_progress"@,
        status_filter_spec(item, "CANCELLED"@) <==> class_of(item) == "cancelled"@,
        status_filter_spec(item, "COMPLETED"@) <==> class_of(item) == "completed"@,
{
    reveal_strlit("COMPLETED");
    reveal_strlit("NOT_STARTED");
    reveal_strlit("IN_PROGRESS");
    reveal_strlit("CANCELLED");
    reveal_strlit("completed");
    reveal_strlit("not_started");
    reveal_strlit("in_progress");
    reveal_strlit("cancelled");
    assert("COMPLETED"@[0] != "NOT_STARTED"@[0]);
    assert("COMPLETED"@[0] != "IN_PROGRESS"@[0]);
    assert("COMPLETED"@[1] != "CANCELLED"@[1]);
    assert("NOT_STARTED"@[0] != "IN_PROGRESS"@[0]);
    assert("NOT_STARTED"@[0] != "CANCELLED"@[0]);
    assert("IN_PROGRESS"@[0] != "CANCELLED"@[0]);
    assert("completed"@[0] != "not_started"@[0]);
    assert("completed"@[0] != "in_progress"@[0]);
    assert("completed"@[1] != "cancelled"@[1]);
    assert("not_started"@[0] != "in_progress"@[0]);
    assert("not_started"@[0] != "cancelled"@[0]);
    assert("in_progress"@[0] != "cancelled"@[0]);
}

/// The summary of `items`: each goal falls in exactly one bucket, kept in
/// the order of `items`; the cancelled ones are only counted. Every goal is
/// counted once: the total is the sum of the buckets.
pub fn summarize(items: &[GoalTreeItem]) -> (r: SummaryData)
    ensures
        r.total == items@.len(),
        r.completed_goals@ == items@.filter(|i: GoalTreeItem| is_completed_goal(i)).map_values(
            |i: GoalTreeItem| summary_item_of(i),
        ),
        r.in_progress_goals@ == items@.filter(|i: GoalTreeItem| is_in_progress_goal(i)).map_values(
            |i: GoalTreeItem| summary_item_of(i),
        ),
        r.stalled_goals@ == items@.filter(|i: GoalTreeItem| is_stalled_goal(i)).map_values(
            |i: GoalTreeItem| summary_item_of(i),
        ),
        r.not_started_goals@ == items@.filter(|i: GoalTreeItem| is_idle_goal(i)).map_values(
            |i: GoalTreeItem| summary_item_of(i),
        ),
        r.cancelled == items@.filter(|i: GoalTreeItem| is_cancelled_goal(i)).len(),
        r.completed == r.completed_goals@.len(),
        r.in_progress == r.in_progress_goals@.len(),
        r.not_started == r.not_started_goals@.len(),
        r.total == r.completed + r.in_progress + r.not_started + r.stalled_goals@.len()
            + r.cancelled,
{
    let ghost pc = |i: GoalTreeItem| is_completed_goal(i);
    let ghost pp = |i: GoalTreeItem| is_in_progress_goal(i);
    let ghost ps = |i: GoalTreeItem| is_stalled_goal(i);
    let ghost pn = |i: GoalTreeItem| is_idle_goal(i);
    let ghost px = |i: GoalTreeItem| is_cancelled_goal(i);
    let ghost f = |i: GoalTreeItem| summary_item_of(i);
    let mut completed_goals: Vec<GoalSummaryItem> = Vec::new();
    let mut in_progress_goals: Vec<GoalSummaryItem> = Vec::new();
    let mut not_started_goals: Vec<GoalSummaryItem> = Vec::new();
    let mut stalled_goals: Vec<GoalSummaryItem> = Vec::new();
    let mut cancelled: usize = 0;
    let mut i: usize = 0;
    proof {
        reveal(Seq::filter);
        assert(items@.take(0) =~= Seq::<GoalTreeItem>::empty());
    }
    while i < items.len()
        invariant
            i <= items@.len(),
            pc == (|i: GoalTreeItem| is_completed_goal(i)),
            pp == (|i: GoalTreeItem| is_in_progress_goal(i)),
            ps == (|i: GoalTreeItem| is_stalled_goal(i)),
            pn == (|i: GoalTreeItem| is_idle_goal(i)),
            px == (|i: GoalTreeItem| is_cancelled_goal(i)),
            f == (|i: GoalTreeItem| summary_item_of(i)),
            completed_goals@ == items@.take(i as int).filter(pc).map_values(f),
            in_progress_goals@ == items@.take(i as int).filter(pp).map_values(f),
            stalled_goals@ == items@.take(i as int).filter(ps).map_values(f),
            not_started_goals@ == items@.take(i as int).filter(pn).map_values(f),
            cancelled == items@.take(i as int).filter(px).len(),
            i == completed_goals@.len() + in_progress_goals@.len() + not_started_goals@.len()
                + stalled_goals@.len() + cancelled,
        decreases items@.len() - i,
    {
        let item = &items[i];
        let ghost prefix = items@.take(i as int);
        proof {
            assert(items@.take(i + 1) =~= prefix.push(*item));
            lemma_bucket_push(prefix, *item, pc, f);
            lemma_bucket_push(prefix, *item, pp, f);
            lemma_bucket_push(prefix, *item, ps, f);
            lemma_bucket_push(prefix, *item, pn, f);
            lemma_bucket_push(prefix, *item, px, f);
        }
        if item.is_completed {
            completed_goals.push(to_summary_item(item));
        } else if item.status == Some(GoalStatus::InProgress) {
            in_progress_goals.push(to_summary_item(item));
        } else if item.status == Some(GoalStatus::Cancelled) {
            proof {
                lemma_filter_len_bound(prefix, px);
            }
            cancelled = cancelled + 1;
        } else if item.has_children {
            stalled_goals.push(to_summary_item(item));
        } else {
            not_started_goals.push(to_summary_item(item));
        }
        i = i + 1;
    }
    proof {
        assert(items@.take(items@.len() as int) =~= items@);
    }
    SummaryData {
        total: items.len(),
        completed: completed_goals.len(),
        in_progress: in_progress_goals.len(),
        not_started: not_started_goals.len(),
        cancelled,
        completed_goals,
        in_progress_goals,
        stalled_goals,
        not_started_goals,
    }
}

proof fn lemma_bucket_push(
    prefix: Seq<GoalTreeItem>,
    item: GoalTreeItem,
    p: spec_fn(GoalTreeItem) -> bool,
    f: spec_fn(GoalTreeItem) -> GoalSummaryItem,
)
    ensures
        prefix.push(item).filter(p).map_values(f) == if p(item) {
            prefix.filter(p).map_values(f).push(f(item))
        } else {
            prefix.filter(p).map_values(f)
        },
        prefix.push(item).filter(p).len() == prefix.filter(p).len() + if p(item) {
            1int
        } else {
            0int
        },
{
    prefix.lemma_filter_push(item, p);
    assert(prefix.filter(p).push(item).map_values(f) =~= prefix.filter(p).map_values(f).push(
        f(item),
    ));
}

proof fn lemma_filter_len_bound(s: Seq<GoalTreeItem>, p: spec_fn(GoalTreeItem) -> bool)
    ensures
        s.filter(p).len() <= s.len(),
    decreases s.len(),
{
    reveal(Seq::filter);
    if s.len() > 0 {
        lemma_filter_len_bound(s.drop_last(), p);
    }
}

} // verus!
