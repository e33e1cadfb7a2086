use addness::skill::{ensure_resource_update, ensure_skill_update};
use addness::tool::ensure_tool_update;

#[test]
fn skill_update_needs_a_field() {
    assert!(ensure_skill_update(&None, &None, &None, &vec![], &vec![], &None, None, &None).is_err());
    assert!(ensure_skill_update(&None, &None, &None, &vec!["s".to_string()], &vec![], &None, None, &None)
        .is_ok());
    assert!(ensure_resource_update(&None, &None).is_err());
    assert!(ensure_resource_update(&None, &Some("c".to_string())).is_ok());
}

#[test]
fn tool_update_needs_a_field() {
    assert_eq!(
        ensure_tool_update(&None, &None, &None, &None, None, &vec![], None, None).unwrap_err(),
        "At least one field to update must be specified"
    );
    assert!(ensure_tool_update(&None, &None, &None, &None, None, &vec![], Some(30), None).is_ok());
}
