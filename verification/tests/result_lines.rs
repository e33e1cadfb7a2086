use addness::result_lines::{
    codex_job_line, comment_line, confirm_prompt, huddle_line, issue_line, org_line, room_line,
    skill_line, thread_line, CodexJobLine, CommentLine, ConfirmPrompt, HuddleLine, IssueLine,
    OrgLine, RoomLine, SkillLine, ThreadLine,
};

fn s(x: &str) -> String {
    x.to_string()
}

#[test]
fn huddle_lines() {
    assert_eq!(
        huddle_line(&HuddleLine::ActiveHuddle { objective_id: s("g1"), participants: 3, started_at: s("10:00") }),
        "g1 — 3 participant(s) since 10:00"
    );
    assert_eq!(
        huddle_line(&HuddleLine::Status { status: s("live"), recording: true, participants: 2 }),
        "status: live  recording: true  participants: 2"
    );
    assert_eq!(huddle_line(&HuddleLine::RecordingStarted { objective_id: s("g1") }), "Recording started for g1.");
}

#[test]
fn codex_issue_comment_room_skill_lines() {
    assert_eq!(codex_job_line(&CodexJobLine::SentInput { id: s("j1") }), "Sent input to Codex job j1");
    assert_eq!(codex_job_line(&CodexJobLine::Deleted { id: s("j1") }), "Deleted Codex job j1");
    assert_eq!(issue_line(&IssueLine::Created { id: s("i1"), number: 42 }), "Issue created: i1 (#42)");
    assert_eq!(
        issue_line(&IssueLine::NoReaction { emoji: s("👍"), id: s("m1") }),
        "No reactions with 👍 on message m1."
    );
    assert_eq!(comment_line(&CommentLine::Unresolved { id: s("c1") }), "Comment c1 unresolved");
    assert_eq!(
        room_line(&RoomLine::GroupCreated { label: s("Team"), id: s("r1") }),
        "Group created: Team (r1)"
    );
    assert_eq!(skill_line(&SkillLine::ToolDeleted { id: s("t1") }), "Deleted tool t1");
    assert_eq!(thread_line(&ThreadLine::RunCancelled { id: s("th") }), "Thread th run cancelled");
    assert_eq!(org_line(&OrgLine::Renamed { id: s("o1"), name: s("New") }), "Organization o1 renamed to New");
}

#[test]
fn confirmation_prompts() {
    assert_eq!(confirm_prompt(&ConfirmPrompt::DeleteTool { id: s("t1") }), "Delete tool t1?");
    assert_eq!(
        confirm_prompt(&ConfirmPrompt::CloseCodexJob { id: s("j1") }),
        "Close Codex job j1? (ends its session)"
    );
    assert_eq!(confirm_prompt(&ConfirmPrompt::RemoveRoomIcon { id: s("r1") }), "Remove room r1's icon?");
}

#[test]
fn thread_rows_and_current_org() {
    let t = addness::thread::ThreadResponse {
        id: s("th1"),
        title: s("Plan\nweek"),
        status: s("idle"),
        message_count: 2,
        ai_agent_id: None,
        share_token: None,
        is_public: false,
        last_message_at: None,
    };
    assert_eq!(addness::thread::thread_row(&t), "th1  Plan week  status=idle  messages=2  last=-");
    assert_eq!(addness::thread::thread_list_footer(9, 20, 0), "-- total=9 limit=20 offset=0");
    assert_eq!(addness::org::current_org(Some("o1")).unwrap(), "o1");
    assert_eq!(
        addness::org::current_org(None).unwrap_err(),
        "No current organization set. Run: addness org switch <id>"
    );
}
