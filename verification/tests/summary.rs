use addness::goal::{GoalOwner, GoalStatus, GoalTreeItem};
use addness::summary::{classify, summarize, to_summary_item};

fn item(id: &str, status: Option<GoalStatus>, done: bool, children: bool) -> GoalTreeItem {
    GoalTreeItem {
        id: id.to_string(),
        title: format!("T{id}"),
        parent_id: None,
        status,
        is_completed: done,
        has_children: children,
        owner: Some(GoalOwner { name: format!("owner {id}") }),
    }
}

#[test]
fn classify_puts_completion_before_status() {
    assert_eq!(classify(&item("1", Some(GoalStatus::InProgress), true, false)), "completed");
    assert_eq!(classify(&item("2", Some(GoalStatus::InProgress), false, false)), "in_progress");
    assert_eq!(classify(&item("3", Some(GoalStatus::Cancelled), false, false)), "cancelled");
    assert_eq!(classify(&item("4", Some(GoalStatus::NoneStatus), false, false)), "not_started");
    assert_eq!(classify(&item("5", None, false, false)), "not_started");
}

#[test]
fn summary_counts_every_goal_once() {
    let items = vec![
        item("1", None, true, false),
        item("2", Some(GoalStatus::InProgress), false, true),
        item("3", Some(GoalStatus::Cancelled), false, false),
        item("4", None, false, true),
        item("5", Some(GoalStatus::NoneStatus), false, false),
        item("6", Some(GoalStatus::InProgress), false, false),
    ];
    let s = summarize(&items);
    assert_eq!(s.total, 6);
    assert_eq!(s.completed, 1);
    assert_eq!(s.in_progress, 2);
    assert_eq!(s.not_started, 1);
    assert_eq!(s.cancelled, 1);
    assert_eq!(s.stalled_goals.len(), 1);
    assert_eq!(s.stalled_goals[0].id, "4");
    assert_eq!(s.not_started_goals[0].id, "5");
    assert_eq!(
        s.total,
        s.completed + s.in_progress + s.not_started + s.stalled_goals.len() + s.cancelled
    );
    let ids: Vec<&str> = s.in_progress_goals.iter().map(|g| g.id.as_str()).collect();
    assert_eq!(ids, vec!["2", "6"]);
}

#[test]
fn summary_item_keeps_id_title_and_owner_name() {
    let s = to_summary_item(&item("9", None, false, false));
    assert_eq!(s.id, "9");
    assert_eq!(s.title, "T9");
    assert_eq!(s.owner.as_deref(), Some("owner 9"));
}
