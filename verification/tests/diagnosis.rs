use addness::diagnosis::{ensure_stats_supported, parse_visibility_pairs, DiagnosisKind};

#[test]
fn diagnosis_kind_as_str_maps_to_backend_values() {
    assert_eq!(DiagnosisKind::GoalStyle.as_str(), "goal_style");
    assert_eq!(DiagnosisKind::Values.as_str(), "values");
    assert_eq!(DiagnosisKind::CoreValues.as_str(), "core_values");
    assert_eq!(DiagnosisKind::MasterPlan.as_str(), "master_plan");
}

#[test]
fn diagnosis_kind_supports_stats_only_for_typed_kinds() {
    assert!(DiagnosisKind::GoalStyle.supports_stats());
    assert!(DiagnosisKind::Values.supports_stats());
    assert!(!DiagnosisKind::CoreValues.supports_stats());
    assert!(!DiagnosisKind::MasterPlan.supports_stats());
}

#[test]
fn parse_visibility_pairs_parses_bool_values() {
    let map = parse_visibility_pairs(&["goal_style=true".to_string(), "values=false".to_string()])
        .unwrap();
    assert_eq!(map.get("goal_style"), Some(&true));
    assert_eq!(map.get("values"), Some(&false));
}

#[test]
fn parse_visibility_pairs_rejects_missing_equals() {
    let err = parse_visibility_pairs(&["goal_style".to_string()]).unwrap_err();
    assert!(err.to_string().contains("<kind>=<true|false>"));
}

#[test]
fn parse_visibility_pairs_rejects_non_bool_value() {
    let err = parse_visibility_pairs(&["goal_style=maybe".to_string()]).unwrap_err();
    assert!(err.to_string().contains("true or false"));
}

#[test]
fn parse_visibility_pairs_later_pair_wins() {
    let map = parse_visibility_pairs(&["values=true".to_string(), "values=false".to_string()])
        .unwrap();
    assert_eq!(map.get("values"), Some(&false));
    assert_eq!(map.get("goal_style"), None);
    assert_eq!(map.entries(), &vec![("values".to_string(), false)]);
}

#[test]
fn stats_are_refused_for_free_form_kinds() {
    assert!(ensure_stats_supported(DiagnosisKind::Values).is_ok());
    assert!(ensure_stats_supported(DiagnosisKind::MasterPlan).is_err());
}
