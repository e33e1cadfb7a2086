use addness::configure::{credential_slot, ensure_non_empty_api_key, mask_key, prompt_answer};

#[test]
fn api_key_validation_rejects_blank_values() {
    assert!(ensure_non_empty_api_key("").is_err());
    assert!(ensure_non_empty_api_key("   ").is_err());
}

#[test]
fn api_key_validation_accepts_non_blank_values() {
    assert!(ensure_non_empty_api_key("ak_test").is_ok());
}

#[test]
fn mask_key_keeps_six_leading_and_four_trailing_bytes() {
    assert_eq!(mask_key("ak_1234567890abcd"), "ak_123...abcd");
    assert_eq!(mask_key("short"), "***");
}

#[test]
fn prompt_answer_falls_back_to_default_for_blank_input() {
    assert_eq!(prompt_answer("  \n", "https://api.addness.app"), "https://api.addness.app");
    assert_eq!(prompt_answer(" value \n", "x"), "value");
}

#[test]
fn credential_slot_names_default_for_empty_org() {
    assert_eq!(credential_slot(""), "_default");
    assert_eq!(credential_slot("org-1"), "org-1");
}
