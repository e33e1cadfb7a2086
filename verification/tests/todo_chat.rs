use addness::todo_chat::TodoChatReasoning;

#[test]
fn reasoning_as_str_matches_backend_values() {
    assert_eq!(TodoChatReasoning::Low.as_str(), "low");
    assert_eq!(TodoChatReasoning::Medium.as_str(), "medium");
    assert_eq!(TodoChatReasoning::High.as_str(), "high");
}
