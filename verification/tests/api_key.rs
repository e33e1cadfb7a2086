use addness::api_key::{format_key_line, ApiKey};

fn sample_key() -> ApiKey {
    ApiKey {
        id: "key-1".to_string(),
        key_prefix: "sk-abcd12".to_string(),
        name: "CI token".to_string(),
        last_used_at: None,
        created_at: "2026-01-01T00:00:00Z".to_string(),
        revoked_at: None,
    }
}

#[test]
fn format_key_line_marks_active_keys() {
    assert_eq!(
        format_key_line(&sample_key()),
        "key-1 [active] CI token (sk-abcd12...)"
    );
}

#[test]
fn format_key_line_marks_revoked_keys() {
    let mut key = sample_key();
    key.revoked_at = Some("2026-02-01T00:00:00Z".to_string());
    assert_eq!(
        format_key_line(&key),
        "key-1 [revoked] CI token (sk-abcd12...)"
    );
}
