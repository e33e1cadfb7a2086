use addness::notification::{
    build_notification_setting_request, flatten_categories, format_notification_body,
    resolve_goal_id, resolve_read_filter, sanitize_terminal_notification_text, split_csv,
    terminal_message, terminal_notification_sequence, NotificationKind, NotificationProvider,
};

#[test]
fn resolve_goal_id_prefers_explicit_goal() {
    assert_eq!(
        resolve_goal_id(Some(&"goal-explicit".to_string()), None).unwrap(),
        "goal-explicit"
    );
}

#[test]
fn resolve_goal_id_falls_back_to_environment_value() {
    assert_eq!(
        resolve_goal_id(Some(&"  ".to_string()), Some("goal-env".to_string())).unwrap(),
        "goal-env"
    );
    assert!(resolve_goal_id(None, Some(" ".to_string())).is_err());
}

#[test]
fn notification_split_csv_trims_and_drops_empty_entries() {
    assert_eq!(split_csv(" id-1, id-2 ,,id-3"), vec!["id-1", "id-2", "id-3"]);
}

#[test]
fn flatten_categories_supports_repeated_and_comma_separated_forms() {
    let raw = vec!["mention,reply".to_string(), "goal".to_string()];
    assert_eq!(flatten_categories(&raw), vec!["mention", "reply", "goal"]);
}

#[test]
fn resolve_read_filter_prefers_unread_only() {
    assert_eq!(resolve_read_filter(true, false), Some(false));
    assert_eq!(resolve_read_filter(false, true), Some(true));
    assert_eq!(resolve_read_filter(false, false), None);
}

#[test]
fn build_notification_setting_request_defaults_to_active() {
    let req = build_notification_setting_request(NotificationProvider::Slack, None, false).unwrap();
    assert_eq!(req.provider, "slack");
    assert!(req.active);
    assert!(req.email.is_none());
}

#[test]
fn build_notification_setting_request_requires_email_for_active_email_provider() {
    let err = build_notification_setting_request(NotificationProvider::Email, None, false)
        .unwrap_err();
    assert!(err.to_string().contains("--email"));
}

#[test]
fn build_notification_setting_request_allows_inactive_email_without_address() {
    let req = build_notification_setting_request(NotificationProvider::Email, None, true).unwrap();
    assert!(!req.active);
    assert!(req.email.is_none());
}

#[test]
fn build_notification_setting_request_accepts_email_when_active() {
    let email = "user@example.com".to_string();
    let req = build_notification_setting_request(NotificationProvider::Email, Some(&email), false)
        .unwrap();
    assert!(req.active);
    assert_eq!(req.email.as_deref(), Some("user@example.com"));
}

#[test]
fn format_notification_body_prefixes_done_kind() {
    assert_eq!(
        format_notification_body(NotificationKind::Done, "完了しました").unwrap(),
        "【作業完了通知】\n完了しました"
    );
}

#[test]
fn format_notification_body_keeps_info_plain() {
    assert_eq!(
        format_notification_body(NotificationKind::Info, "確認お願いします").unwrap(),
        "確認お願いします"
    );
}

#[test]
fn terminal_message_collapses_and_truncates() {
    let message = terminal_message("  作業が\n\n完了しました  ");
    assert_eq!(message, "作業が 完了しました");
}

#[test]
fn terminal_message_strips_control_sequences() {
    let message = terminal_message("確認\x1b]9;bad\x07お願いします");
    assert_eq!(message, "確認]9 badお願いします");
}

#[test]
fn sanitizing_twice_changes_nothing_more() {
    let once = sanitize_terminal_notification_text("a\tb;c\x1bd\ne");
    assert_eq!(once, "a b cd e");
    assert_eq!(sanitize_terminal_notification_text(&once), once);
}

#[test]
fn terminal_sequence_wraps_title_and_message() {
    let seq = terminal_notification_sequence(NotificationKind::Info, "hello").unwrap();
    assert!(seq.starts_with("\x07\x1b]9;hello\x07\x1b]777;notify;"));
    assert!(seq.ends_with(";hello\x07"));
    assert_eq!(terminal_notification_sequence(NotificationKind::Info, " \n "), None);
}

#[test]
fn sanitizing_twice_changes_nothing() {
    let once = addness::notification::sanitize_terminal_notification_text("  a;\tb\u{7}\n\n c  ");
    assert_eq!(once, "a b c");
    assert_eq!(addness::notification::sanitize_terminal_notification_text(&once), once);
}
