use addness::today::{
    validate_planned_update_args, validate_todo_add_args, TodoActivityAction, TodoStatus,
};

#[test]
fn todo_status_as_str_maps_to_backend_values() {
    assert_eq!(TodoStatus::NoneStatus.as_str(), "NONE");
    assert_eq!(TodoStatus::InProgress.as_str(), "IN_PROGRESS");
    assert_eq!(TodoStatus::Completed.as_str(), "COMPLETED");
    assert_eq!(TodoStatus::Cancelled.as_str(), "CANCELLED");
}

#[test]
fn todo_activity_action_as_str_maps_to_backend_values() {
    assert_eq!(TodoActivityAction::Engage.as_str(), "ENGAGE");
    assert_eq!(TodoActivityAction::Progress.as_str(), "PROGRESS");
    assert_eq!(TodoActivityAction::Complete.as_str(), "COMPLETE");
}

#[test]
fn validate_todo_add_args_requires_objective_id_or_title() {
    let err = validate_todo_add_args(None, None).unwrap_err();
    assert!(err.to_string().contains("--objective-id"));
}

#[test]
fn validate_todo_add_args_accepts_objective_id_alone() {
    assert!(validate_todo_add_args(Some("obj-1"), None).is_ok());
}

#[test]
fn validate_todo_add_args_accepts_title_alone() {
    assert!(validate_todo_add_args(None, Some("Buy milk")).is_ok());
}

#[test]
fn validate_planned_update_args_rejects_recurrence_and_clear_together() {
    let err = validate_planned_update_args(Some("{}"), true).unwrap_err();
    assert!(err.to_string().contains("mutually exclusive"));
}

#[test]
fn validate_planned_update_args_accepts_recurrence_alone() {
    assert!(validate_planned_update_args(Some("{}"), false).is_ok());
}

#[test]
fn validate_planned_update_args_accepts_clear_alone() {
    assert!(validate_planned_update_args(None, true).is_ok());
}

#[test]
fn validate_todo_add_args_refuses_objective_id_with_title() {
    assert_eq!(
        validate_todo_add_args(Some("obj-1"), Some("Buy milk")).unwrap_err(),
        "--objective-id and --title are mutually exclusive"
    );
}
