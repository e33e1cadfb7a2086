use addness::consent::ConsentType;

#[test]
fn consent_type_as_str_maps_to_backend_values() {
    assert_eq!(ConsentType::ChatSecrecyDm.as_str(), "chat_communication_secrecy_dm");
    assert_eq!(ConsentType::ChatSecrecyGroup.as_str(), "chat_communication_secrecy_group");
}
