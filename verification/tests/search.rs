use addness::search::summarize_item;

#[test]
fn summarize_item_prefers_title() {
    let data = r#"{"title": "Launch plan", "content": "ignored"}"#;
    assert_eq!(summarize_item(data), "Launch plan");
}

#[test]
fn summarize_item_falls_back_to_content() {
    let data = r#"{"content": "line one\nline two"}"#;
    assert_eq!(summarize_item(data), "line one line two");
}

#[test]
fn summarize_item_returns_dash_when_no_known_field() {
    let data = r#"{"other": "value"}"#;
    assert_eq!(summarize_item(data), "-");
}

#[test]
fn summarize_item_cuts_long_text_to_eighty_characters() {
    let long = "x".repeat(100);
    let data = format!(r#"{{"name": "{long}"}}"#);
    assert_eq!(summarize_item(&data), "x".repeat(80));
    assert_eq!(summarize_item(r#"{"displayName": "Ann", "name": "ann"}"#), "Ann");
    assert_eq!(summarize_item("not json"), "-");
}
