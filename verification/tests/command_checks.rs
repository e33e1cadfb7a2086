use addness::chat::ensure_invitees;
use addness::goal::{alias_order, build_update_goal_request, GoalStatus, TextArg};
use addness::goals::build_goals_update_request;
use addness::meeting::{
    ensure_goal_count, ensure_minute_update, ensure_minutes_source, ensure_zoom_job,
    MinuteSourceType,
};
use addness::member::{select_current_user_name, OrgMember};
use addness::notification::notification_ids;
use addness::org::{build_create_organization_params, context_source};
use addness::paths::upload_file_name;
use addness::thread::message_display_text;

fn s(x: &str) -> Option<String> {
    Some(x.to_string())
}

#[test]
fn create_org_normalizes_type_and_choices() {
    let p = build_create_organization_params(
        "Acme",
        "business",
        &s("  2_5 "),
        &s("free"),
        &s("  retail "),
        &s("   "),
        &None,
        &s("https://logo"),
    )
    .unwrap();
    assert_eq!(p.name, "Acme");
    assert_eq!(p.organization_type, "BUSINESS");
    assert_eq!(p.team_scale, s("2_5"));
    assert_eq!(p.plan_type, s("FREE"));
    assert_eq!(p.industry, s("retail"));
    assert_eq!(p.phone_number, None);
    assert_eq!(p.browser_timezone, None);
    assert_eq!(p.logo_url, s("https://logo"));
}

#[test]
fn create_org_personal_needs_no_team_scale() {
    let p = build_create_organization_params(
        "Me", "Personal", &None, &s("   "), &None, &None, &None, &None,
    )
    .unwrap();
    assert_eq!(p.organization_type, "PERSONAL");
    assert_eq!(p.team_scale, None);
    assert_eq!(p.plan_type, None);
}

#[test]
fn create_org_rejects_bad_flags_in_order() {
    let e = build_create_organization_params(
        "X", "team", &s("bogus"), &s("bogus"), &None, &None, &None, &None,
    )
    .unwrap_err();
    assert_eq!(e, "Invalid --type 'team'. Use PERSONAL or BUSINESS.");
    let e = build_create_organization_params(
        "X", "BUSINESS", &s("  "), &None, &None, &None, &None, &None,
    )
    .unwrap_err();
    assert_eq!(
        e,
        "--team-scale is required for BUSINESS (one of SOLO, 2_5, 6_20, 21_50, 50_PLUS)"
    );
    let e = build_create_organization_params(
        "X", "personal", &s("huge"), &s("bogus"), &None, &None, &None, &None,
    )
    .unwrap_err();
    assert_eq!(e, "Invalid --team-scale 'HUGE'. Use SOLO, 2_5, 6_20, 21_50, or 50_PLUS.");
    let e = build_create_organization_params(
        "X", "personal", &None, &s(" gold "), &None, &None, &None, &None,
    )
    .unwrap_err();
    assert_eq!(e, "Invalid --plan-type 'GOLD'. Use FREE, PACKAGE, or SUBSCRIPTION.");
}

#[test]
fn set_context_takes_exactly_one_source() {
    let text = "ctx".to_string();
    let file = "ctx.md".to_string();
    assert!(matches!(context_source(Some(&text), None), Ok(TextArg::Inline(t)) if t == "ctx"));
    assert!(matches!(context_source(None, Some(&file)), Ok(TextArg::File(p)) if p == "ctx.md"));
    assert_eq!(
        context_source(Some(&text), Some(&file)).unwrap_err(),
        "Specify only one of --text or --text-file"
    );
    assert_eq!(context_source(None, None).unwrap_err(), "Specify --text or --text-file");
}

#[test]
fn room_invite_needs_a_member() {
    assert!(ensure_invitees(&vec!["m1".to_string()]).is_ok());
    assert_eq!(
        ensure_invitees(&Vec::new()).unwrap_err(),
        "Specify at least one --member to invite."
    );
}

#[test]
fn mark_read_ids_are_split_and_required() {
    assert_eq!(notification_ids(" a, ,b ").unwrap(), vec!["a".to_string(), "b".to_string()]);
    assert_eq!(
        notification_ids(" , ").unwrap_err(),
        "--ids must contain at least one notification ID"
    );
}

#[test]
fn alias_order_keeps_the_given_order() {
    assert_eq!(
        alias_order("c, a,,b").unwrap(),
        vec!["c".to_string(), "a".to_string(), "b".to_string()]
    );
    assert_eq!(alias_order("").unwrap_err(), "--order must contain at least one alias ID");
}

#[test]
fn goal_update_request_carries_each_change() {
    let title = "New".to_string();
    let due = "2025-03-04".to_string();
    let req = build_update_goal_request(
        (Some(None), Some(GoalStatus::InProgress)),
        Some(&title),
        s("desc"),
        None,
        Some(&due),
        false,
    )
    .unwrap();
    assert_eq!(req.status, Some(GoalStatus::InProgress));
    assert_eq!(req.completed_at, Some(None));
    assert_eq!(req.title, s("New"));
    assert_eq!(req.description, s("desc"));
    assert_eq!(req.body, None);
    assert_eq!(req.due_date, Some(s("2025-03-04T00:00:00Z")));
}

#[test]
fn goal_update_can_clear_the_due_date_alone() {
    let bad = "soon".to_string();
    let req = build_update_goal_request((None, None), None, None, None, Some(&bad), true).unwrap();
    assert_eq!(req.due_date, Some(None));
}

#[test]
fn goal_update_rejects_a_bad_due_date_and_an_empty_change() {
    let bad = "soon".to_string();
    assert_eq!(
        build_update_goal_request((None, None), None, None, None, Some(&bad), false).unwrap_err(),
        "--due-date must be YYYY-MM-DD or RFC3339"
    );
    assert_eq!(
        build_update_goal_request((None, None), None, None, None, None, false).unwrap_err(),
        "Nothing to update. Specify --status, --title, --description, --body, or --due-date."
    );
}

#[test]
fn goals_update_request_needs_a_change() {
    let title = "T".to_string();
    let req = build_goals_update_request((Some(true), Some(GoalStatus::NoneStatus)), Some(&title))
        .unwrap();
    assert_eq!(req.is_completed, Some(true));
    assert_eq!(req.status, Some(GoalStatus::NoneStatus));
    assert_eq!(req.title, s("T"));
    assert_eq!(req.description, None);
    assert_eq!(
        build_goals_update_request((None, None), None).unwrap_err(),
        "Nothing to update. Specify --status or --title."
    );
}

#[test]
fn meeting_flag_checks() {
    assert!(ensure_minutes_source(&s("m"), &None, &None).is_ok());
    assert!(ensure_minutes_source(&None, &None, &s("t")).is_ok());
    assert_eq!(
        ensure_minutes_source(&None, &None, &None).unwrap_err(),
        "--minute-id, or --minutes/--transcript, is required"
    );
    assert!(ensure_goal_count(1).is_ok());
    assert!(ensure_goal_count(7).is_ok());
    assert_eq!(
        ensure_goal_count(0).unwrap_err(),
        "--goals-json must contain between 1 and 7 goals (got 0)"
    );
    assert_eq!(
        ensure_goal_count(8).unwrap_err(),
        "--goals-json must contain between 1 and 7 goals (got 8)"
    );
    assert!(ensure_zoom_job(MinuteSourceType::Recording, &None).is_ok());
    assert!(ensure_zoom_job(MinuteSourceType::Zoom, &s("z")).is_ok());
    assert_eq!(
        ensure_zoom_job(MinuteSourceType::Zoom, &None).unwrap_err(),
        "--zoom-job-id is required when --source-type zoom"
    );
    assert!(ensure_minute_update(&None, &None, &None, &s("g")).is_ok());
    assert_eq!(
        ensure_minute_update(&None, &None, &None, &None).unwrap_err(),
        "At least one of --title/--summary/--transcript/--objective-id is required"
    );
}

#[test]
fn upload_file_name_is_the_last_component() {
    assert_eq!(upload_file_name("/tmp/a/rec.webm").unwrap(), "rec.webm");
    assert_eq!(upload_file_name("/").unwrap_err(), "Cannot derive file name from /");
}

#[test]
fn message_text_prefers_the_text_field() {
    assert_eq!(message_display_text(r#"{"text":"hi"}"#), "hi");
    assert_eq!(message_display_text(r#"{"parts":[1]}"#), r#"{"parts":[1]}"#);
}

#[test]
fn current_user_name_is_the_first_marked_member() {
    let members = vec![
        OrgMember { id: "1".to_string(), name: "Ann".to_string(), is_current_user: false },
        OrgMember { id: "2".to_string(), name: "Bo".to_string(), is_current_user: true },
    ];
    assert_eq!(select_current_user_name(&members).unwrap(), "Bo");
    assert_eq!(
        select_current_user_name(&members[..1]).unwrap_err(),
        "Could not determine current user. Try using your name instead of 'me'."
    );
}
