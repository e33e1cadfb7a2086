use addness::goal_detail::Segment;
use addness::goal_flow::{
    created_goal_line, delete_after_answer, delete_after_lookup, delete_start, deleted_goal_line,
    duplicated_goal_line, goal_status_result_line, siblings_after_children, siblings_after_goal,
    DeleteStep, SiblingsStep,
};
use addness::org::{created_org_lines, switch_key_warning, switch_target, OrgSummary};
use addness::stream_event::{chat_stream_result, Style};
use addness::thread::{empty_listing_line, share_link_line, ThreadListing};
use addness::tool::{tool_list_lines, tool_saved_line, tool_search_lines, ToolItem};

fn s(x: &str) -> String {
    x.to_string()
}

fn text(lines: &[Vec<Segment>]) -> Vec<String> {
    lines
        .iter()
        .map(|l| {
            l.iter()
                .map(|g| match g {
                    Segment::Text { text, .. } => text.clone(),
                    Segment::Status { .. } => String::new(),
                })
                .collect()
        })
        .collect()
}

#[test]
fn siblings_of_a_root_goal_and_of_an_only_child() {
    assert_eq!(
        siblings_after_goal(None, false),
        SiblingsStep::Finish(vec![s("This goal has no parent (root goal). No siblings.")])
    );
    assert_eq!(siblings_after_goal(None, true), SiblingsStep::Finish(vec![s("[]")]));
    assert_eq!(
        siblings_after_goal(Some(s("p")), false),
        SiblingsStep::FetchChildren { parent_id: s("p") }
    );
    assert_eq!(
        siblings_after_children(vec![s("g")], "g", false),
        SiblingsStep::Finish(vec![s("No sibling goals found.")])
    );
    assert_eq!(
        siblings_after_children(vec![s("a"), s("g"), s("b")], "g", true),
        SiblingsStep::Show(vec![s("a"), s("b")])
    );
}

#[test]
fn delete_asks_unless_forced_and_cancels_on_no() {
    assert_eq!(delete_start("g1", true), DeleteStep::Delete { id: s("g1") });
    assert_eq!(delete_start("g1", false), DeleteStep::LookUp { id: s("g1") });
    assert_eq!(
        delete_after_lookup("g1", "Launch"),
        DeleteStep::Ask { prompt: s("Delete goal \"Launch\" (g1)?") }
    );
    assert_eq!(delete_after_answer("g1", Some(" y\n")), DeleteStep::Delete { id: s("g1") });
    assert_eq!(delete_after_answer("g1", Some("n")), DeleteStep::Finish { line: s("Cancelled.") });
    assert_eq!(delete_after_answer("g1", None), DeleteStep::Finish { line: s("Cancelled.") });
    assert_eq!(deleted_goal_line("g1"), "Deleted goal g1");
}

#[test]
fn goal_result_lines() {
    assert_eq!(created_goal_line("T", "g"), "Created goal: T (g)");
    assert_eq!(goal_status_result_line("archived", "g"), "Goal g archived");
    assert_eq!(duplicated_goal_line("T", "g2", "p"), "Duplicated goal: T (g2) under parent p");
}

#[test]
fn org_switch_needs_membership() {
    let orgs = vec![
        OrgSummary { id: s("o1"), name: s("One") },
        OrgSummary { id: s("o2"), name: s("Two") },
    ];
    assert_eq!(switch_target("o2", &orgs).unwrap(), "Switched to organization: Two (o2)");
    assert_eq!(
        switch_target("o9", &orgs).unwrap_err(),
        "Organization 'o9' not found in your account.\nUse `addness org list` to see available organizations."
    );
    assert_eq!(switch_key_warning(true, false).len(), 2);
    assert!(switch_key_warning(false, false).is_empty());
    assert!(switch_key_warning(true, true).is_empty());
    assert_eq!(
        created_org_lines("Acme", "o3", false),
        vec![s("Organization created: Acme (o3)"), s("Switch with: addness org switch o3")]
    );
}

#[test]
fn stream_failure_names_the_command() {
    assert_eq!(
        chat_stream_result("thread chat", Some(s("boom"))).unwrap_err(),
        "thread chat error: boom"
    );
    assert!(chat_stream_result("todo chat", None).is_ok());
}

#[test]
fn tool_listing_lines() {
    let tools = vec![ToolItem { id: s("t1"), name: s("Fetch"), executor: s("http") }];
    assert_eq!(text(&tool_list_lines(&tools, 5)), vec![s("t1 — Fetch [http]"), s("5 total")]);
    let empty = tool_list_lines(&[], 0);
    assert_eq!(empty[0][0], Segment::Text { text: s("No tools found."), style: Style::Dimmed });
    assert_eq!(text(&tool_search_lines(&[])), vec![s("No matching tools found.")]);
    assert_eq!(tool_saved_line("Created", "t1", "Fetch"), "Created tool t1 — Fetch");
}

#[test]
fn thread_share_and_empty_notes() {
    assert_eq!(share_link_line(Some("https://x/s/1"), "tok"), "Share link created: https://x/s/1");
    assert_eq!(share_link_line(None, "tok"), "Share link created: tok");
    assert_eq!(
        empty_listing_line(ThreadListing::Traces)[0],
        Segment::Text { text: s("No action traces found."), style: Style::Dimmed }
    );
}

#[test]
fn empty_list_notes_and_room_lines() {
    use_listing();
}

fn use_listing() {
    assert_eq!(
        addness::listing::empty_note_line(addness::listing::Listing::CodexJobs)[0],
        Segment::Text { text: s("No Codex jobs found."), style: Style::Dimmed }
    );
    assert_eq!(
        addness::listing::empty_note_line(addness::listing::Listing::ActiveHuddles)[0],
        Segment::Text { text: s("No active huddles in this subtree."), style: Style::Dimmed }
    );
    assert_eq!(addness::listing::room_hidden_line("r1", false), "Room r1 unhidden");
    assert_eq!(addness::listing::room_invite_line(3, "r1"), "Invited 3 member(s) to room r1");
}
