use addness::goal_detail::Segment;
use addness::stream_event::Style;
use addness::today::{
    calendar_day_line, planned_todo_line, today_todo_line, PlannedTodoView, TodayTodoView,
};

fn text(line: &[Segment]) -> String {
    line.iter()
        .map(|s| match s {
            Segment::Text { text, .. } => text.clone(),
            Segment::Status { .. } => String::new(),
        })
        .collect()
}

fn planned(date: &str, recurrence: &str, status: &str) -> PlannedTodoView {
    PlannedTodoView {
        id: "p1".to_string(),
        title: "Write".to_string(),
        scheduled_date: date.to_string(),
        recurrence_text: recurrence.to_string(),
        status: status.to_string(),
    }
}

#[test]
fn planned_line_prefers_date_then_recurrence_then_backlog() {
    assert_eq!(text(&planned_todo_line(&planned("2025-01-02", "weekly", "DONE"))), "Write [2025-01-02] p1 (DONE)");
    assert_eq!(text(&planned_todo_line(&planned("", "weekly", ""))), "Write [weekly] p1 ");
    assert_eq!(text(&planned_todo_line(&planned("", "", ""))), "Write [backlog] p1 ");
    assert_eq!(
        planned_todo_line(&planned("", "", ""))[1],
        Segment::Text { text: "p1".to_string(), style: Style::Dimmed }
    );
}

#[test]
fn today_line_tells_chat_items_from_goals() {
    let chat = TodayTodoView {
        id: Some("t1".to_string()),
        title: Some("Call".to_string()),
        status: None,
        objective_id: None,
    };
    assert_eq!(text(&today_todo_line(&chat)), "Call [NONE] t1 (chat)");
    let goal = TodayTodoView {
        id: None,
        title: None,
        status: Some("IN_PROGRESS".to_string()),
        objective_id: Some("g9".to_string()),
    };
    assert_eq!(text(&today_todo_line(&goal)), "g9 (goal)");
}

#[test]
fn calendar_day_marks_and_counts() {
    assert_eq!(calendar_day_line("2025", "01", "02", true, true, false, 3), "2025-01-02 [x] (3)");
    assert_eq!(calendar_day_line("2025", "01", "03", false, true, true, 0), "2025-01-03 [ ]");
    assert_eq!(calendar_day_line("2025", "01", "04", false, false, true, 0), "2025-01-04 [*]");
    assert_eq!(calendar_day_line("2025", "01", "05", false, false, false, 0), "2025-01-05 [.]");
}
