use addness::detect::{extract_goal_id, goal_id_from_branch};

#[test]
fn test_goal_uuid_branch() {
    assert_eq!(
        extract_goal_id("goal/19453a2d-6524-4bbb-8e4f-f8fd69f3fce4/add-email-notifications"),
        Some("19453a2d-6524-4bbb-8e4f-f8fd69f3fce4".to_string())
    );
}

#[test]
fn test_goal_uuid_only() {
    assert_eq!(
        extract_goal_id("goal/19453a2d-6524-4bbb-8e4f-f8fd69f3fce4"),
        Some("19453a2d-6524-4bbb-8e4f-f8fd69f3fce4".to_string())
    );
}

#[test]
fn test_feature_goal_branch() {
    assert_eq!(
        extract_goal_id("feature/goal-19453a2d-6524-4bbb-8e4f-f8fd69f3fce4/fix-ui"),
        Some("19453a2d-6524-4bbb-8e4f-f8fd69f3fce4".to_string())
    );
}

#[test]
fn test_no_goal() {
    assert_eq!(extract_goal_id("feature/add-login"), None);
}

#[test]
fn test_main_branch() {
    assert_eq!(extract_goal_id("main"), None);
}

#[test]
fn test_head_literal() {
    assert_eq!(extract_goal_id("HEAD"), None);
}

#[test]
fn goal_id_from_branch_trims_git_output_and_ignores_head() {
    assert_eq!(goal_id_from_branch("HEAD\n"), None);
    assert_eq!(
        goal_id_from_branch("goal/19453a2d-6524-4bbb-8e4f-f8fd69f3fce4/x\n"),
        Some("19453a2d-6524-4bbb-8e4f-f8fd69f3fce4".to_string())
    );
}

#[test]
fn extract_goal_id_takes_the_first_segment_with_a_uuid() {
    assert_eq!(
        extract_goal_id("aaaaaaaa-1111-2222-3333-444444444444/goal/bbbbbbbb-1111-2222-3333-444444444444"),
        Some("aaaaaaaa-1111-2222-3333-444444444444".to_string())
    );
}

#[test]
fn detect_goal_output_per_flag() {
    let id = "19453a2d-6524-4bbb-8e4f-f8fd69f3fce4";
    assert_eq!(addness::detect::detect_goal_output(Some(id), false).unwrap(), id);
    assert_eq!(
        addness::detect::detect_goal_output(Some(id), true).unwrap(),
        format!("{{\n  \"detected\": true,\n  \"goal_id\": \"{id}\"\n}}")
    );
    assert_eq!(
        addness::detect::detect_goal_output(None, true).unwrap(),
        "{\n  \"detected\": false,\n  \"goal_id\": null\n}"
    );
    assert!(addness::detect::detect_goal_output(None, false)
        .unwrap_err()
        .starts_with("No goal ID found in current branch name."));
}
