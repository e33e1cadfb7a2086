use addness::chat::{
    ensure_chat_content, ensure_group_name, room_label, truncate_content, ChatRoom, ChatRoomType,
    ChatVisibility,
};

fn room(room_type: &str, name: Option<&str>) -> ChatRoom {
    ChatRoom {
        id: "r-1".to_string(),
        organization_id: String::new(),
        room_type: room_type.to_string(),
        visibility: "public".to_string(),
        is_member: true,
        created_at: String::new(),
        updated_at: String::new(),
        unread_count: 0,
        unread_mention_count: 0,
        name: name.map(str::to_string),
        dm_pair_key: None,
        icon_url: None,
        created_by: None,
        last_message_at: None,
        last_message: None,
    }
}

#[test]
fn chat_room_type_as_str_maps_to_backend_values() {
    assert_eq!(ChatRoomType::Dm.as_str(), "dm");
    assert_eq!(ChatRoomType::Group.as_str(), "group");
}

#[test]
fn chat_visibility_as_str_maps_to_backend_values() {
    assert_eq!(ChatVisibility::Public.as_str(), "public");
    assert_eq!(ChatVisibility::Private.as_str(), "private");
}

#[test]
fn ensure_chat_content_rejects_empty_content() {
    assert!(ensure_chat_content("   \n".to_string()).is_err());
}

#[test]
fn ensure_chat_content_accepts_content_at_limit() {
    let body = "あ".repeat(4000);
    assert_eq!(ensure_chat_content(body.clone()).unwrap(), body);
}

#[test]
fn ensure_chat_content_rejects_content_over_limit() {
    let err = ensure_chat_content("あ".repeat(4001)).unwrap_err();
    assert!(err.to_string().contains("4000"));
}

#[test]
fn ensure_group_name_rejects_empty_name() {
    assert!(ensure_group_name("  ").is_err());
}

#[test]
fn ensure_group_name_rejects_name_over_limit() {
    let err = ensure_group_name(&"a".repeat(256)).unwrap_err();
    assert!(err.to_string().contains("255"));
}

#[test]
fn ensure_group_name_accepts_name_at_limit() {
    assert!(ensure_group_name(&"a".repeat(255)).is_ok());
}

#[test]
fn room_label_prefers_name_then_dm_then_unnamed() {
    assert_eq!(room_label(&room("group", Some("general"))), "general");
    assert_eq!(room_label(&room("dm", None)), "(dm)");
    assert_eq!(room_label(&room("group", None)), "(unnamed)");
}

#[test]
fn chat_truncate_content_flattens_newlines_and_truncates() {
    assert_eq!(truncate_content("a\nb", 10), "a b");
    let truncated = truncate_content(&"x".repeat(100), 10);
    assert_eq!(truncated.chars().count(), 10);
    assert!(truncated.ends_with("..."));
}

#[test]
fn truncate_content_keeps_short_content_and_handles_tiny_limits() {
    assert_eq!(truncate_content("abc", 3), "abc");
    assert_eq!(truncate_content("abcd", 2), "...");
    assert_eq!(truncate_content("a\n\nb", 4), "a  b");
}
