use addness::login::{
    browser_url, callback_response, check_state, compact_uuid, exchange_message, frontend_base,
    generate_keypair, new_code_verifier, new_compact_id, parse_callback, public_key_pem,
    replace_text, sha256_base64url, sign_message, start_message,
};

#[test]
fn start_and_exchange_messages_list_their_fields() {
    assert_eq!(
        start_message("inst", "st", 5555, "cc", 1700000000),
        "visiontodo-desktop-auth-start\ninstallation_id=inst\nstate=st\nport=5555\nnext_path=/organization/set\ncode_challenge=cc\nauth_path=/sign-in\nreferral_code=\ntimestamp=1700000000"
    );
    assert_eq!(
        exchange_message("inst", "h1", "cv", -5),
        "visiontodo-desktop-auth-exchange\ninstallation_id=inst\nhandoff_id=h1\ncode_verifier=cv\ntimestamp=-5"
    );
}

#[test]
fn pkce_challenge_is_the_rfc7636_example() {
    assert_eq!(
        sha256_base64url("dBjftJeZ4CVP-mB92K27uhbUJU1p1r_wW1gFWFOEjXk"),
        "E9Melhoa2OwvFrEMTJguCHaoeK1t8URWbuGJSstw-cM"
    );
    assert_eq!(new_code_verifier().len(), 43);
}

#[test]
fn public_key_pem_wraps_the_pkix_bytes() {
    let pem = public_key_pem(&[0u8; 32]);
    assert_eq!(
        pem,
        "-----BEGIN PUBLIC KEY-----\nMCowBQYDK2VwAyEAAAAAAAAAAAAAAAAAAAAAAAAAAAAAAAAAAAAAAAAAAAA=\n-----END PUBLIC KEY-----"
    );
    let (key, pem) = generate_keypair();
    assert!(pem.starts_with("-----BEGIN PUBLIC KEY-----\nMCowBQYDK2VwAyEA"));
    assert_eq!(sign_message(&key, "hello").len(), 86);
}

#[test]
fn compact_ids_drop_the_hyphens() {
    assert_eq!(
        compact_uuid("19453a2d-6524-4bbb-8e4f-f8fd69f3fce4"),
        "19453a2d65244bbb8e4ff8fd69f3fce4"
    );
    let id = new_compact_id();
    assert_eq!(id.len(), 32);
    assert!(!id.contains('-'));
}

#[test]
fn frontend_defaults_from_the_api_url() {
    assert_eq!(frontend_base("https://api.addness.app", None), "https://addness.app");
    assert_eq!(frontend_base("http://localhost:8080", None), "http://localhost:3000");
    assert_eq!(frontend_base("https://api.x", Some("https://fe.x/")), "https://fe.x/");
    assert_eq!(replace_text("aaa", "aa", "b"), "ba");
    assert_eq!(
        browser_url("https://fe.x//", "tok"),
        "https://fe.x/desktop/browser-auth?start_token=tok"
    );
}

#[test]
fn callback_carries_handoff_and_state() {
    assert_eq!(
        parse_callback("GET /callback?handoff_id=h1&state=s1 HTTP/1.1\r\n").unwrap(),
        ("h1".to_string(), "s1".to_string())
    );
    assert_eq!(
        parse_callback("GET /callback?state=s1&handoff_id=a&handoff_id=b HTTP/1.1").unwrap(),
        ("b".to_string(), "s1".to_string())
    );
    assert_eq!(
        parse_callback("GET /callback?state=s1 HTTP/1.1").unwrap_err(),
        "No handoff_id in callback"
    );
    assert!(parse_callback("").is_err());
    assert!(callback_response().ends_with("<p>You can close this tab.</p></body></html>"));
    assert!(callback_response().contains("Content-Length: 82\r\n"));
}

#[test]
fn state_must_round_trip() {
    assert!(check_state("abc", "abc").is_ok());
    assert_eq!(check_state("abc", "xyz").unwrap_err(), "State mismatch: expected abc, got xyz");
}

fn hex(s: &str) -> Vec<u8> {
    (0..s.len()).step_by(2).map(|i| u8::from_str_radix(&s[i..i + 2], 16).unwrap()).collect()
}

#[test]
fn signing_follows_the_rfc8032_vector() {
    let secret = hex("9d61b19deffd5a60ba844af492ec2cc44449c5697b326919703bac031cae7f60");
    let key = addness::login::SigningSecret::from_bytes(&secret).unwrap();
    let expected = hex(
        "e5564300c360ac729086e2cc806e828a84877f1eb8e5d974d873e065224901555fb8821590a33bacc61e39701cf9b46bd25bf5f0595bbe24655141438e7a100b",
    );
    assert_eq!(
        sign_message(&key, ""),
        base64::Engine::encode(&base64::engine::general_purpose::URL_SAFE_NO_PAD, &expected)
    );
    assert!(addness::login::SigningSecret::from_bytes(&secret[..31]).is_none());
}

#[test]
fn generated_key_signs_what_its_pem_verifies() {
    let (key, pem) = generate_keypair();
    let b64 = pem
        .trim_start_matches("-----BEGIN PUBLIC KEY-----\n")
        .trim_end_matches("\n-----END PUBLIC KEY-----");
    let der = base64::Engine::decode(&base64::engine::general_purpose::STANDARD, b64).unwrap();
    let public: [u8; 32] = der[12..].try_into().unwrap();
    let vk = ed25519_dalek::VerifyingKey::from_bytes(&public).unwrap();
    let sig_text = sign_message(&key, "hello");
    let sig_bytes = base64::Engine::decode(&base64::engine::general_purpose::URL_SAFE_NO_PAD, sig_text).unwrap();
    let sig = ed25519_dalek::Signature::from_slice(&sig_bytes).unwrap();
    assert!(ed25519_dalek::Verifier::verify(&vk, b"hello", &sig).is_ok());
}

#[test]
fn timestamp_comes_from_seconds_since_the_epoch() {
    use_timestamp_from();
}

fn use_timestamp_from() {
    assert_eq!(addness::login::timestamp_from(Some(1_700_000_000)).unwrap(), 1_700_000_000);
    assert_eq!(
        addness::login::timestamp_from(None).unwrap_err(),
        "The system clock is set before 1970-01-01"
    );
    assert!(addness::login::timestamp_from(Some(u64::MAX)).is_err());
    assert!(addness::login::timestamp().unwrap() > 1_600_000_000);
}

#[test]
fn login_replies_fail_with_the_call_and_body() {
    use_login_replies();
}

fn use_login_replies() {
    assert!(addness::login::login_reply_check(addness::login::LoginCall::Register, true, "").is_ok());
    assert_eq!(
        addness::login::login_reply_check(addness::login::LoginCall::TokenExchange, false, "nope").unwrap_err(),
        "Token exchange failed: nope"
    );
    assert_eq!(addness::login::exchanged_api_key(Some("k".to_string())).unwrap(), "k");
    assert!(addness::login::exchanged_api_key(None).unwrap_err().starts_with("Server did not return an API key."));
}
