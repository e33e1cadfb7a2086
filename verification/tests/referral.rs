use addness::referral::ReferralChannel;

#[test]
fn referral_channel_as_str_maps_to_backend_values() {
    assert_eq!(ReferralChannel::Copy.as_str(), "copy");
    assert_eq!(ReferralChannel::Line.as_str(), "line");
    assert_eq!(ReferralChannel::Sns.as_str(), "sns");
}
