use addness::org::{non_empty, resolve_org_id, token_to_copy_for_created_org};
use addness::member::{select_self_member_id, OrgMember};

#[test]
fn resolve_org_id_prefers_the_flag() {
    assert_eq!(resolve_org_id(Some("org-flag"), Some("org-current")).unwrap(), "org-flag");
    assert_eq!(resolve_org_id(None, Some("org-current")).unwrap(), "org-current");
    assert!(resolve_org_id(None, None).unwrap_err().starts_with("No organization specified."));
}

#[test]
fn non_empty_trims_and_drops_blank_values() {
    assert_eq!(non_empty(&Some("  x ".to_string())), Some("x".to_string()));
    assert_eq!(non_empty(&Some("   ".to_string())), None);
    assert_eq!(non_empty(&None), None);
}

#[test]
fn created_org_inherits_current_then_any_token() {
    assert_eq!(token_to_copy_for_created_org(true, Some("t1"), Some("t2")), None);
    assert_eq!(token_to_copy_for_created_org(false, Some("t1"), Some("t2")), Some("t1".to_string()));
    assert_eq!(token_to_copy_for_created_org(false, None, Some("t2")), Some("t2".to_string()));
    assert_eq!(token_to_copy_for_created_org(false, None, None), None);
}

#[test]
fn self_member_is_the_first_current_user() {
    let members = vec![
        OrgMember { id: "m1".to_string(), name: "A".to_string(), is_current_user: false },
        OrgMember { id: "m2".to_string(), name: "B".to_string(), is_current_user: true },
        OrgMember { id: "m3".to_string(), name: "C".to_string(), is_current_user: true },
    ];
    assert_eq!(select_self_member_id(&members, "org-1").unwrap(), "m2");
    assert_eq!(
        select_self_member_id(&members[..1], "org-1").unwrap_err(),
        "Could not determine your member ID in organization org-1. Specify --member <ID> explicitly."
    );
}
