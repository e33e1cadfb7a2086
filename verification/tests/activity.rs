use addness::activity::{flatten_values, split_csv};

#[test]
fn activity_split_csv_trims_and_drops_empty_entries() {
    assert_eq!(
        split_csv(" objective.create, objective.update ,,kpi.update"),
        vec!["objective.create", "objective.update", "kpi.update"]
    );
}

#[test]
fn flatten_values_supports_repeated_and_comma_separated_forms() {
    let raw = vec![
        "objective.create,objective.update".to_string(),
        "kpi.update".to_string(),
    ];
    assert_eq!(
        flatten_values(&raw),
        vec!["objective.create", "objective.update", "kpi.update"]
    );
}

#[test]
fn flatten_values_returns_empty_for_no_input() {
    let raw: Vec<String> = vec![];
    assert!(flatten_values(&raw).is_empty());
}

#[test]
fn split_csv_of_only_separators_is_empty() {
    assert!(split_csv(" , ,, ").is_empty());
}
