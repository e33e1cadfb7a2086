//! The `[y/N]` confirmation of destructive commands.

use vstd::prelude::*;
use crate::text::{ascii_lower, owned, to_ascii_lower, trim, trimmed, str_eq};

verus! {

/// Whether an answer to a `[y/N]` prompt confirms: `y` or `Y`, ignoring
/// surrounding whitespace; anything else declines.
pub fn confirmed(input: &str) -> (b: bool)
    ensures
        b == (ascii_lower(trim(input@)) == "y"@),
{
    let t = trimmed(input);
    let l = to_ascii_lower(t.as_str());
    str_eq(l.as_str(), "y")
}

/// Whether a `--force`-gated destructive command goes ahead: at once with
/// `--force`; otherwise only when the answer to its `[y/N]` prompt confirms
/// (no answer, as when the prompt could not be read, declines).
pub fn destructive_gate(force: bool, answer: Option<&str>) -> (r: bool)
    ensures
        r == (force || (answer matches Some(a) && ascii_lower(trim(a@)) == "y"@)),
{
    if force {
        return true;
    }
    match answer {
        Some(a) => confirmed(a),
        None => false,
    }
}

/// What a destructive command prints when the prompt declines.
pub open spec fn cancelled_text() -> Seq<char> {
    "Cancelled."@
}

/// The line printed when a destructive command is declined.
pub fn cancelled_line() -> (r: String)
    ensures
        r@ == cancelled_text(),
{
    owned("Cancelled.")
}

/// What a destructive command does after its gate: `None` to go ahead, or
/// the `Cancelled.` line to print and stop.
pub fn gate_outcome(force: bool, answer: Option<&str>) -> (r: Option<String>)
    ensures
        r is None <==> (force || (answer matches Some(a) && ascii_lower(trim(a@)) == "y"@)),
        r matches Some(line) ==> line@ == cancelled_text(),
{
    if destructive_gate(force, answer) {
        None
    } else {
        Some(cancelled_line())
    }
}

} // verus!
