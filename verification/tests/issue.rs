use addness::issue::{
    ensure_issue_body, ensure_preview_ids, ensure_section_cursor, truncate_content, SectionScope,
};

#[test]
fn section_scope_as_str_maps_to_backend_values() {
    assert_eq!(SectionScope::Today.as_str(), "today");
    assert_eq!(SectionScope::All.as_str(), "all");
}

#[test]
fn ensure_issue_body_rejects_empty_content() {
    assert!(ensure_issue_body("   \n".to_string()).is_err());
}

#[test]
fn ensure_issue_body_accepts_content_at_limit() {
    let body = "あ".repeat(4000);
    assert_eq!(ensure_issue_body(body.clone()).unwrap(), body);
}

#[test]
fn ensure_issue_body_rejects_content_over_limit() {
    let err = ensure_issue_body("あ".repeat(4001)).unwrap_err();
    assert!(err.to_string().contains("4000"));
}

#[test]
fn ensure_preview_ids_rejects_empty_list() {
    assert!(ensure_preview_ids(&[]).is_err());
}

#[test]
fn ensure_preview_ids_accepts_up_to_fifty() {
    let ids: Vec<String> = (0..50).map(|i| format!("id-{i}")).collect();
    assert!(ensure_preview_ids(&ids).is_ok());
}

#[test]
fn ensure_preview_ids_rejects_more_than_fifty() {
    let ids: Vec<String> = (0..51).map(|i| format!("id-{i}")).collect();
    let err = ensure_preview_ids(&ids).unwrap_err();
    assert!(err.to_string().contains("50"));
}

#[test]
fn ensure_section_cursor_accepts_first_page() {
    assert!(ensure_section_cursor(None, None, None, None).is_ok());
}

#[test]
fn ensure_section_cursor_accepts_full_cursor() {
    assert!(ensure_section_cursor(
        Some(true),
        Some("2026-07-15T00:00:00Z"),
        Some("obj-1"),
        Some("2026-07-15T00:00:00Z"),
    )
    .is_ok());
}

#[test]
fn ensure_section_cursor_rejects_partial_cursor() {
    let err = ensure_section_cursor(None, Some("2026-07-15T00:00:00Z"), None, None).unwrap_err();
    assert!(err.to_string().contains("--section-before-id"));
}

#[test]
fn issue_truncate_content_flattens_newlines_and_truncates() {
    assert_eq!(truncate_content("a\nb", 10), "a b");
    let truncated = truncate_content(&"x".repeat(100), 10);
    assert_eq!(truncated.chars().count(), 10);
    assert!(truncated.ends_with("..."));
}
