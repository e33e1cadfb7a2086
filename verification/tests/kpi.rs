use addness::kpi::{ensure_kpi_target, ensure_kpi_update};

#[test]
fn kpi_target_must_be_positive() {
    assert!(ensure_kpi_target(1).is_ok());
    assert!(ensure_kpi_target(0).unwrap_err().contains("--target must be greater than 0"));
    assert!(ensure_kpi_target(-5).is_err());
}

#[test]
fn kpi_update_needs_a_field() {
    assert_eq!(
        ensure_kpi_update(&None, &None, None, None).unwrap_err(),
        "Nothing to update. Specify --title, --unit, --target, or --actual."
    );
    assert!(ensure_kpi_update(&None, &None, None, Some(3)).is_ok());
}
