use addness::invitation::validate_invited_member_status;

#[test]
fn validate_invited_member_status_accepts_known_values() {
    for status in ["invited", "accepted", "declined", "expired", "revoked"] {
        assert!(validate_invited_member_status(status).is_ok());
    }
}

#[test]
fn validate_invited_member_status_rejects_unknown_values() {
    let err = validate_invited_member_status("bogus").unwrap_err().to_string();
    assert!(err.contains("Invalid --status 'bogus'"));
    assert!(err.contains("invited, accepted, declined, expired, revoked"));
}
