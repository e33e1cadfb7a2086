use addness::desktop_auth::DesktopAuthCommands;

fn command_outputs_json(command: &DesktopAuthCommands) -> bool {
    command.outputs_json()
}

#[test]
fn json_flag_controls_update_check_skip() {
    assert!(command_outputs_json(&DesktopAuthCommands::Redeem {
        start_token: "start-token".to_string(),
        browser_nonce_hash: "hash".to_string(),
        json: true,
    }));
    assert!(!command_outputs_json(&DesktopAuthCommands::Complete {
        intent_id: "intent-1".to_string(),
        browser_nonce: "nonce".to_string(),
        json: false,
    }));
}
