use addness::thread::{ensure_question_answer, ensure_tool_confirmation_choice, single_line_title};

#[test]
fn single_line_title_placeholder_for_empty() {
    assert_eq!(single_line_title(""), "(untitled)");
}

#[test]
fn single_line_title_collapses_newlines_and_extra_whitespace() {
    assert_eq!(
        single_line_title("今日はどれに集中する?\n\n（質問）今日は"),
        "今日はどれに集中する? （質問）今日は"
    );
}

#[test]
fn single_line_title_leaves_simple_titles_untouched() {
    assert_eq!(single_line_title("Renamed"), "Renamed");
}

#[test]
fn single_line_title_of_only_whitespace_is_empty() {
    assert_eq!(single_line_title("  \n "), "");
}

#[test]
fn responses_need_an_answer_or_a_choice() {
    assert_eq!(
        ensure_question_answer(&None, &vec![]).unwrap_err(),
        "Specify either --answer or --answers"
    );
    assert!(ensure_question_answer(&None, &vec!["a".to_string()]).is_ok());
    assert!(ensure_question_answer(&Some("yes".to_string()), &vec![]).is_ok());
    assert_eq!(
        ensure_tool_confirmation_choice(false, false).unwrap_err(),
        "Specify either --approve or --reject"
    );
    assert!(ensure_tool_confirmation_choice(false, true).is_ok());
}

fn plain_text(line: &[addness::goal_detail::Segment]) -> String {
    line.iter()
        .map(|s| match s {
            addness::goal_detail::Segment::Text { text, .. } => text.clone(),
            addness::goal_detail::Segment::Status { .. } => String::new(),
        })
        .collect()
}

#[test]
fn thread_lines_show_the_fields_present() {
    let t = addness::thread::ThreadResponse {
        id: "th1".to_string(),
        title: "Plan\n  the   week".to_string(),
        status: "active".to_string(),
        message_count: 4,
        ai_agent_id: None,
        share_token: Some("tok".to_string()),
        is_public: true,
        last_message_at: Some("2025-01-01T00:00:00Z".to_string()),
    };
    let lines: Vec<String> =
        addness::thread::thread_response_lines(&t).iter().map(|l| plain_text(l)).collect();
    assert_eq!(
        lines,
        vec![
            "th1 Plan the week",
            "  status: active",
            "  messages: 4",
            "  shareToken: tok (public=true)",
            "  lastMessageAt: 2025-01-01T00:00:00Z",
        ]
    );
}
