use addness::goal::{Goal, GoalChildNode, GoalNode, GoalOwner, GoalStatus, GoalTreeItem};
use addness::goal_detail::{
    goal_detail_lines, recurring_goal_lines, Comment, CommentAuthor, Deliverable,
    DeliverableType, RecurringGoal, Segment,
};
use addness::stream_event::Style;

fn flat(line: &[Segment]) -> String {
    line.iter()
        .map(|s| match s {
            Segment::Text { text, .. } => text.clone(),
            Segment::Status { is_completed, .. } => {
                if *is_completed { "<done>".to_string() } else { "<open>".to_string() }
            }
        })
        .collect()
}

fn item(id: &str, title: &str, done: bool) -> GoalTreeItem {
    GoalTreeItem {
        id: id.to_string(),
        title: title.to_string(),
        parent_id: None,
        status: None,
        is_completed: done,
        has_children: false,
        owner: None,
    }
}

fn goal() -> Goal {
    Goal {
        id: "g1".to_string(),
        title: "Launch".to_string(),
        description: Some("ship it".to_string()),
        parent_id: Some("p0".to_string()),
        owner: Some(GoalOwner { name: "Ann".to_string() }),
        due_date: Some("2025-05-01T00:00:00Z".to_string()),
        body: Some(String::new()),
        status: Some(GoalStatus::InProgress),
        is_completed: false,
    }
}

#[test]
fn goal_detail_lists_the_goal_then_its_subtree() {
    let child = GoalChildNode {
        goal: item("c1", "Child", true),
        deliverables: Some(vec![Deliverable {
            id: "d1".to_string(),
            display_name: "spec link".to_string(),
            node_type: DeliverableType::Link,
            link_url: Some("https://x".to_string()),
            content: None,
        }]),
        comments: None,
        children: Some(vec![GoalChildNode {
            goal: item("c2", "Grandchild", false),
            deliverables: Some(vec![]),
            comments: None,
            children: None,
        }]),
    };
    let tree = GoalNode {
        goal: goal(),
        deliverables: Some(vec![]),
        comments: None,
        children: Some(vec![child]),
    };
    let lines: Vec<String> = goal_detail_lines(&tree).iter().map(|l| flat(l)).collect();
    assert_eq!(
        lines,
        vec![
            "Launch [<open>]",
            "   ID: g1",
            "   完了条件: ship it",
            "   Parent: p0",
            "   Owner: Ann",
            "   Due: 2025-05-01",
            "   成果物: (なし)",
            " └─ Child [<done>]",
            "       ID: c1",
            "       成果物:",
            "         - 🔗 spec link",
            "       https://x",
            "     └─ Grandchild [<open>]",
            "           ID: c2",
            "           成果物: (なし)",
        ]
    );
}

#[test]
fn goal_detail_styles_labels_and_titles() {
    let tree: GoalNode<Deliverable, Comment> =
        GoalNode { goal: goal(), deliverables: None, comments: None, children: None };
    let lines = goal_detail_lines(&tree);
    assert_eq!(
        lines[0][0],
        Segment::Text { text: "Launch".to_string(), style: Style::Bold }
    );
    assert_eq!(
        lines[0][2],
        Segment::Status { is_completed: false, status: Some(GoalStatus::InProgress) }
    );
    assert_eq!(lines[1][1], Segment::Text { text: "ID".to_string(), style: Style::Dimmed });
    assert_eq!(lines.len(), 6);
}

#[test]
fn goal_detail_shows_comments_and_document_text_cut_to_thirty() {
    let tree = GoalNode {
        goal: Goal {
            id: "g".to_string(),
            title: "T".to_string(),
            description: None,
            parent_id: None,
            owner: None,
            due_date: None,
            body: Some("Body text".to_string()),
            status: None,
            is_completed: false,
        },
        deliverables: Some(vec![Deliverable {
            id: "d".to_string(),
            display_name: "notes".to_string(),
            node_type: DeliverableType::Document,
            link_url: None,
            content: Some("abcdefghijklmnopqrstuvwxyz0123456789".to_string()),
        }]),
        comments: Some(vec![Comment {
            content: "line one\nline two".to_string(),
            author: CommentAuthor { name: "Bot".to_string(), is_ai_agent: true },
            created_at: "2025-01-02T03:04:05Z".to_string(),
        }]),
        children: Some(vec![GoalChildNode {
            goal: item("c", "C", false),
            deliverables: None,
            comments: None,
            children: None,
        }]),
    };
    let lines: Vec<String> = goal_detail_lines(&tree).iter().map(|l| flat(l)).collect();
    assert_eq!(
        lines,
        vec![
            "T [<open>]",
            "   ID: g",
            "\n   Body",
            "Body text",
            "   成果物:",
            "     - 📄 notes",
            "       abcdefghijklmnopqrstuvwxyz0...",
            "   コメント:",
            "     - \"line one line two\" Bot (AI) 2025-01-02",
            " └─ C [<open>]",
            "       ID: c",
            "       成果物: (取得失敗)",
            "       コメント: (取得失敗)",
        ]
    );
}

#[test]
fn recurring_schedule_lists_the_fields_it_has() {
    let g = RecurringGoal {
        id: "r1".to_string(),
        objective_id: "g1".to_string(),
        description: "Every Monday and Friday".to_string(),
        pattern: None,
        recurrence_type: Some("WEEKLY".to_string()),
        interval: Some(2),
        days_of_week: vec!["MONDAY".to_string(), "FRIDAY".to_string()],
        days_of_month: vec![1, -1, 15],
        nth_week: None,
        is_last_day: Some(false),
        repeat_from_completion: Some(true),
        end_date: Some("2026-01-01".to_string()),
    };
    let lines: Vec<String> = recurring_goal_lines(&g).iter().map(|l| flat(l)).collect();
    assert_eq!(
        lines,
        vec![
            "Every Monday and Friday",
            "   ID: r1",
            "   Goal: g1",
            "   Recurrence type: WEEKLY",
            "   Interval: 2",
            "   Days of week: MONDAY, FRIDAY",
            "   Days of month: 1, -1, 15",
            "   Repeat from completion: yes",
            "   End date: 2026-01-01",
        ]
    );
}
