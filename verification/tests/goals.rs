use addness::goal::GoalStatus;
use addness::goals::{node_type_icon, parse_status};

#[test]
fn goals_parse_status_maps_completion_flag() {
    assert_eq!(parse_status("completed").unwrap(), (Some(true), None));
    assert_eq!(parse_status("Not_Started").unwrap(), (Some(false), Some(GoalStatus::NoneStatus)));
    assert_eq!(parse_status("IN_PROGRESS").unwrap(), (Some(false), Some(GoalStatus::InProgress)));
    assert_eq!(parse_status("cancelled").unwrap(), (Some(false), Some(GoalStatus::Cancelled)));
    assert!(parse_status("paused").unwrap_err().contains("Invalid status: 'paused'"));
}

#[test]
fn node_type_icons() {
    assert_eq!(node_type_icon("folder"), "📁");
    assert_eq!(node_type_icon("link"), "🔗");
    assert_eq!(node_type_icon("other"), "  ");
}
