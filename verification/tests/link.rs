use addness::link::pr_display_name;

#[test]
fn pr_display_name_shortens_pull_request_urls() {
    assert_eq!(pr_display_name("https://github.com/org/repo/pull/42"), "org/repo#42");
    assert_eq!(pr_display_name("https://github.com/org/repo/pull/42/"), "org/repo#42");
    assert_eq!(pr_display_name("https://gitlab.example/org/repo/pulls/7"), "org/repo#7");
}

#[test]
fn pr_display_name_keeps_other_urls() {
    assert_eq!(pr_display_name("https://example.com/a"), "https://example.com/a");
    assert_eq!(pr_display_name("https://github.com/org/repo/issues/3"), "https://github.com/org/repo/issues/3");
}
