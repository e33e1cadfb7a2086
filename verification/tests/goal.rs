use addness::goal::{
    build_recurring_goal_request, exclude_goal, filter_by_owner, filter_by_status,
    handle_related_fetch_errors, is_recurring_goal_not_found, normalize_due_date,
    parse_days_of_month, parse_days_of_week, parse_status_at, read_text_arg,
    refers_to_current_user, related_fetch_error_message, should_fetch_child_related,
    GoalOwner, GoalStatus, GoalTreeItem, RelatedFetchError, TextArg,
};

#[test]
fn normalize_due_date_accepts_yyyy_mm_dd() {
    assert_eq!(normalize_due_date("2026-07-01").unwrap(), "2026-07-01T00:00:00Z");
}

#[test]
fn normalize_due_date_keeps_rfc3339() {
    assert_eq!(normalize_due_date("2026-07-01T12:30:00Z").unwrap(), "2026-07-01T12:30:00Z");
}

#[test]
fn normalize_due_date_rejects_invalid_input() {
    assert!(normalize_due_date("Tomorrow").is_err());
    assert!(normalize_due_date("2026-13-99T99:99:99Z").is_err());
    assert!(normalize_due_date("2026-07-01T12:30:00").is_err());
}

#[test]
fn child_related_fetch_preserves_json_compatibility() {
    assert!(should_fetch_child_related(true, false));
}

#[test]
fn child_related_fetch_for_human_output_requires_flag() {
    assert!(should_fetch_child_related(false, true));
    assert!(!should_fetch_child_related(false, false));
}

#[test]
fn related_fetch_error_message_lists_each_failure() {
    let errors = vec![RelatedFetchError {
        kind: "deliverables",
        goal_id: "goal-1".to_string(),
        message: "network error".to_string(),
    }];
    assert_eq!(
        related_fetch_error_message(&errors),
        "Failed to fetch related goal data:\ndeliverables for goal-1: network error"
    );
}

#[test]
fn related_fetch_errors_only_fail_in_strict_mode() {
    let errors = vec![RelatedFetchError {
        kind: "comments",
        goal_id: "goal-2".to_string(),
        message: "forbidden".to_string(),
    }];
    assert!(handle_related_fetch_errors(false, errors.clone()).is_ok());
    assert!(handle_related_fetch_errors(true, errors).is_err());
}

#[test]
fn related_fetch_errors_become_warnings_when_lenient() {
    let errors = vec![
        RelatedFetchError {
            kind: "comments",
            goal_id: "goal-2".to_string(),
            message: "forbidden".to_string(),
        },
        RelatedFetchError {
            kind: "deliverables",
            goal_id: "goal-3".to_string(),
            message: "timeout".to_string(),
        },
    ];
    assert_eq!(
        related_fetch_error_message(&errors),
        "Failed to fetch related goal data:\ncomments for goal-2: forbidden\ndeliverables for goal-3: timeout"
    );
    assert_eq!(
        handle_related_fetch_errors(false, errors).unwrap(),
        vec![
            "Warning: failed to fetch comments for goal-2: forbidden",
            "Warning: failed to fetch deliverables for goal-3: timeout",
        ]
    );
    assert!(handle_related_fetch_errors(true, vec![]).unwrap().is_empty());
}

#[test]
fn parse_days_of_week_uppercases_and_trims() {
    assert_eq!(parse_days_of_week(" monday, thursday ").unwrap(), vec!["MONDAY", "THURSDAY"]);
}

#[test]
fn parse_days_of_week_rejects_invalid_day() {
    let err = parse_days_of_week("monday,someday").unwrap_err();
    assert!(err.to_string().contains("someday"));
}

#[test]
fn parse_days_of_month_accepts_valid_range() {
    assert_eq!(parse_days_of_month("1, 15,31").unwrap(), vec![1, 15, 31]);
}

#[test]
fn parse_days_of_month_rejects_out_of_range() {
    assert!(parse_days_of_month("0").is_err());
    assert!(parse_days_of_month("32").is_err());
}

#[test]
fn parse_days_of_month_reports_the_offending_text() {
    assert_eq!(
        parse_days_of_month("3,x").unwrap_err(),
        "--days-of-month must contain integers between 1 and 31, got 'x'"
    );
    assert_eq!(
        parse_days_of_month("-4").unwrap_err(),
        "--days-of-month must contain integers between 1 and 31, got '-4'"
    );
}

#[test]
fn build_recurring_goal_request_accepts_basic_pattern() {
    let req = build_recurring_goal_request(
        Some("weekly"), None, None, None, None, None, false, None, false,
    )
    .unwrap();
    assert_eq!(req.pattern.as_deref(), Some("WEEKLY"));
    assert!(req.recurrence_type.is_none());
}

#[test]
fn build_recurring_goal_request_rejects_invalid_basic_pattern() {
    let err = build_recurring_goal_request(
        Some("YEARLY"), None, None, None, None, None, false, None, false,
    )
    .unwrap_err();
    assert!(err.to_string().contains("--pattern"));
}

#[test]
fn build_recurring_goal_request_rejects_pattern_and_custom_together() {
    let err = build_recurring_goal_request(
        Some("DAILY"), None, Some(2), None, None, None, false, None, false,
    )
    .unwrap_err();
    assert!(err.to_string().contains("cannot be combined"));
}

#[test]
fn build_recurring_goal_request_rejects_nothing_specified() {
    let err = build_recurring_goal_request(None, None, None, None, None, None, false, None, false)
        .unwrap_err();
    assert!(err.to_string().contains("Specify either"));
}

#[test]
fn build_recurring_goal_request_weekly_requires_days_of_week() {
    let err = build_recurring_goal_request(
        None, Some("WEEKLY"), Some(1), None, None, None, false, None, false,
    )
    .unwrap_err();
    assert!(err.to_string().contains("--days-of-week"));
}

#[test]
fn build_recurring_goal_request_monthly_requires_day_selector() {
    let err = build_recurring_goal_request(
        None, Some("MONTHLY"), Some(1), None, None, None, false, None, false,
    )
    .unwrap_err();
    assert!(err.to_string().contains("MONTHLY"));
}

#[test]
fn build_recurring_goal_request_monthly_last_day_is_sufficient() {
    let req = build_recurring_goal_request(
        None, Some("monthly"), Some(1), None, None, None, true, None, false,
    )
    .unwrap();
    assert_eq!(req.is_last_day, Some(true));
    assert!(req.days_of_month.is_empty());
}

#[test]
fn build_recurring_goal_request_yearly_rejects_day_fields() {
    let err = build_recurring_goal_request(
        None, Some("YEARLY"), Some(1), None, Some("1"), None, false, None, false,
    )
    .unwrap_err();
    assert!(err.to_string().contains("YEARLY"));
}

#[test]
fn build_recurring_goal_request_normalizes_end_date() {
    let req = build_recurring_goal_request(
        None, Some("DAILY"), Some(1), None, None, Some("2026-12-31"), false, None, false,
    )
    .unwrap();
    assert_eq!(req.end_date.as_deref(), Some("2026-12-31T00:00:00Z"));
}

#[test]
fn build_recurring_goal_request_rejects_invalid_interval() {
    let err = build_recurring_goal_request(
        None, Some("DAILY"), Some(0), None, None, None, false, None, false,
    )
    .unwrap_err();
    assert!(err.to_string().contains("--interval"));
}

#[test]
fn build_recurring_goal_request_rejects_out_of_range_nth_week() {
    let err = build_recurring_goal_request(
        None, Some("MONTHLY"), Some(1), Some("monday"), None, None, false, Some(6), false,
    )
    .unwrap_err();
    assert_eq!(err, "--nth-week must be between 1 and 5");
    let req = build_recurring_goal_request(
        None, Some("MONTHLY"), Some(2), Some("monday"), None, None, false, Some(2), true,
    )
    .unwrap();
    assert_eq!(req.days_of_week, vec!["MONDAY"]);
    assert_eq!(req.nth_week, Some(2));
    assert_eq!(req.repeat_from_completion, Some(true));
    assert_eq!(req.is_last_day, None);
}

#[test]
fn is_recurring_goal_not_found_matches_backend_message() {
    assert!(is_recurring_goal_not_found(
        "API error (404 Not Found): 繰り返し設定が見つかりません"
    ));
    assert!(!is_recurring_goal_not_found("API error (500 Internal Server Error): oops"));
}

#[test]
fn read_text_arg_rejects_both_sources() {
    let inline = "text".to_string();
    let file = "f.md".to_string();
    assert!(matches!(
        read_text_arg(Some(&inline), None, "--body", "--body-file"),
        Ok(Some(TextArg::Inline(t))) if t == "text"
    ));
    assert!(matches!(read_text_arg(None, None, "--body", "--body-file"), Ok(None)));
    assert_eq!(
        read_text_arg(Some(&inline), Some(&file), "--body", "--body-file").unwrap_err(),
        "Specify only one of --body or --body-file"
    );
}

#[test]
fn parse_status_at_maps_each_status() {
    let now = "2026-01-01T00:00:00+00:00".to_string();
    assert_eq!(
        parse_status_at("completed", Some(now.clone())).unwrap(),
        (Some(Some(now.clone())), None)
    );
    assert_eq!(
        parse_status_at("in_progress", Some(now.clone())).unwrap(),
        (Some(None), Some(GoalStatus::InProgress))
    );
    assert_eq!(
        parse_status_at("NOT_STARTED", Some(now.clone())).unwrap(),
        (Some(None), Some(GoalStatus::NoneStatus))
    );
    assert_eq!(
        parse_status_at("done", Some(now)).unwrap_err(),
        "Invalid status: 'done'. Use one of: NOT_STARTED, IN_PROGRESS, COMPLETED, CANCELLED"
    );
}

fn item(id: &str, owner: Option<&str>, status: Option<GoalStatus>, done: bool) -> GoalTreeItem {
    GoalTreeItem {
        id: id.to_string(),
        title: format!("title {id}"),
        parent_id: None,
        status,
        is_completed: done,
        has_children: false,
        owner: owner.map(|n| GoalOwner { name: n.to_string() }),
    }
}

fn ids(items: &[GoalTreeItem]) -> Vec<String> {
    items.iter().map(|i| i.id.clone()).collect()
}

fn sample_items() -> Vec<GoalTreeItem> {
    vec![
        item("a", Some("Alice Smith"), None, false),
        item("b", Some("Bob"), Some(GoalStatus::InProgress), false),
        item("c", None, Some(GoalStatus::Cancelled), false),
        item("d", Some("alice"), Some(GoalStatus::InProgress), true),
    ]
}

#[test]
fn list_filters_keep_matching_items_in_order() {
    assert_eq!(ids(&filter_by_status(sample_items(), "completed")), vec!["d"]);
    assert_eq!(ids(&filter_by_status(sample_items(), "NOT_STARTED")), vec!["a"]);
    assert_eq!(ids(&filter_by_status(sample_items(), "in_progress")), vec!["b"]);
    assert_eq!(ids(&filter_by_status(sample_items(), "cancelled")), vec!["c"]);
    assert_eq!(ids(&filter_by_status(sample_items(), "other")), vec!["a", "b", "c", "d"]);
    assert_eq!(ids(&filter_by_owner(sample_items(), "ALICE")), vec!["a", "d"]);
    assert_eq!(ids(&exclude_goal(sample_items(), "b")), vec!["a", "c", "d"]);
    assert!(refers_to_current_user("Me"));
    assert!(!refers_to_current_user("meg"));
}

#[test]
fn parse_status_at_needs_a_clock_only_for_completed() {
    assert_eq!(
        parse_status_at("completed", None).unwrap_err(),
        "The system clock is set before 1970-01-01"
    );
    assert_eq!(
        parse_status_at("cancelled", None).unwrap(),
        (Some(None), Some(GoalStatus::Cancelled))
    );
}

#[test]
fn a_normalized_due_date_normalizes_to_itself() {
    let once = addness::goal::normalize_due_date("2026-07-01").unwrap();
    assert_eq!(once, "2026-07-01T00:00:00Z");
    assert_eq!(addness::goal::normalize_due_date(&once).unwrap(), once);
}
