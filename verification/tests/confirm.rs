use addness::confirm::{confirmed, destructive_gate, gate_outcome};

#[test]
fn only_y_confirms() {
    assert!(confirmed("y\n"));
    assert!(confirmed("  Y "));
    assert!(!confirmed("yes"));
    assert!(!confirmed("\n"));
    assert!(!confirmed("n"));
}

#[test]
fn force_skips_the_prompt_and_a_decline_cancels() {
    assert!(destructive_gate(true, None));
    assert!(destructive_gate(false, Some("y\n")));
    assert!(!destructive_gate(false, Some("no")));
    assert!(!destructive_gate(false, None));
    assert_eq!(gate_outcome(false, Some("n")), Some("Cancelled.".to_string()));
    assert_eq!(gate_outcome(false, Some("Y")), None);
}
