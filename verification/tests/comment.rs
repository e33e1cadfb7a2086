use addness::comment::{
    ensure_body, read_body, validate_limit, validate_radius, validate_sort, BodySource,
};

#[test]
fn validate_sort_accepts_asc_and_desc() {
    assert_eq!(validate_sort(Some(&"asc".to_string())).unwrap(), Some("asc"));
    assert_eq!(validate_sort(Some(&"desc".to_string())).unwrap(), Some("desc"));
    assert_eq!(validate_sort(None).unwrap(), None);
}

#[test]
fn validate_sort_rejects_other_values() {
    assert!(validate_sort(Some(&"newest".to_string())).is_err());
}

#[test]
fn validate_limit_accepts_range_bounds() {
    assert_eq!(validate_limit(Some(1)).unwrap(), Some(1));
    assert_eq!(validate_limit(Some(1000)).unwrap(), Some(1000));
    assert_eq!(validate_limit(None).unwrap(), None);
}

#[test]
fn validate_limit_rejects_out_of_range() {
    assert!(validate_limit(Some(0)).is_err());
    assert!(validate_limit(Some(1001)).is_err());
}

#[test]
fn validate_radius_accepts_range_bounds() {
    assert_eq!(validate_radius(Some(1)).unwrap(), Some(1));
    assert_eq!(validate_radius(Some(50)).unwrap(), Some(50));
    assert_eq!(validate_radius(None).unwrap(), None);
}

#[test]
fn validate_radius_rejects_out_of_range() {
    assert!(validate_radius(Some(0)).is_err());
    assert!(validate_radius(Some(51)).is_err());
}

#[test]
fn ensure_body_rejects_empty_and_oversized_content() {
    assert!(ensure_body("  \n".to_string()).is_err());
    assert!(ensure_body("a".repeat(10_001)).is_err());
    assert_eq!(ensure_body("hello".to_string()).unwrap(), "hello");
}

#[test]
fn read_body_chooses_source_and_rejects_both_or_neither() {
    let dash = "-".to_string();
    let text = "hi".to_string();
    let path = "notes.md".to_string();
    assert!(matches!(read_body(Some(&dash), None), Ok(BodySource::Stdin)));
    assert!(matches!(read_body(Some(&text), None), Ok(BodySource::Inline(t)) if t == "hi"));
    assert!(matches!(read_body(None, Some(&path)), Ok(BodySource::File(p)) if p == "notes.md"));
    assert_eq!(
        read_body(Some(&text), Some(&path)).unwrap_err(),
        "Specify only one of --body or --body-file"
    );
    assert_eq!(read_body(None, None).unwrap_err(), "Specify --body or --body-file");
}
