use addness::streak::{member_or_self, public_day_state_label};

#[test]
fn public_day_state_label_prefers_completed() {
    assert_eq!(public_day_state_label(true, false), "completed");
    assert_eq!(public_day_state_label(true, true), "completed");
}

#[test]
fn public_day_state_label_reports_frozen() {
    assert_eq!(public_day_state_label(false, true), "frozen");
}

#[test]
fn public_day_state_label_defaults_to_none() {
    assert_eq!(public_day_state_label(false, false), "none");
}

#[test]
fn member_or_self_prefers_the_flag() {
    let m = "member-2".to_string();
    assert_eq!(member_or_self(Some(&m), Some("me".to_string())), Some("member-2".to_string()));
    assert_eq!(member_or_self(None, Some("me".to_string())), Some("me".to_string()));
    assert_eq!(member_or_self(None, None), None);
}
