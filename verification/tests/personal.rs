use addness::personal::{ensure_target_ref, PersonalTarget};

#[test]
fn personal_target_as_str_maps_to_backend_values() {
    assert_eq!(PersonalTarget::Now.as_str(), "now");
    assert_eq!(PersonalTarget::Day.as_str(), "day");
    assert_eq!(PersonalTarget::Project.as_str(), "project");
}

#[test]
fn ensure_target_ref_requires_id_for_project() {
    let err = ensure_target_ref(PersonalTarget::Project, None, None).unwrap_err();
    assert!(err.to_string().contains("--id"));
}

#[test]
fn ensure_target_ref_requires_date_for_day() {
    let err = ensure_target_ref(PersonalTarget::Day, None, None).unwrap_err();
    assert!(err.to_string().contains("--date"));
}

#[test]
fn ensure_target_ref_allows_now_without_id_or_date() {
    assert!(ensure_target_ref(PersonalTarget::Now, None, None).is_ok());
}

#[test]
fn ensure_target_ref_accepts_project_with_id() {
    assert!(ensure_target_ref(PersonalTarget::Project, Some("p1"), None).is_ok());
}

#[test]
fn ensure_target_ref_accepts_day_with_date() {
    assert!(ensure_target_ref(PersonalTarget::Day, None, Some("2026-07-15")).is_ok());
}
