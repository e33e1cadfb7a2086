//! The steps of the `goal` commands that decide between backend calls:
//! `goal siblings` (look up the goal, then its parent's children) and
//! `goal delete` (look up the title, ask, then delete), and the lines the
//! goal commands print for their results. The caller makes each call and
//! hands its reply to the next step.

use vstd::prelude::*;
use crate::confirm::{cancelled_text, destructive_gate};
use crate::text::{ascii_lower, owned, trim};

verus! {

/// What `goal siblings` does next.
#[derive(Debug, PartialEq, Eq)]
pub enum SiblingsStep {
    /// Print these lines and stop.
    Finish(Vec<String>),
    /// Fetch the first page of children of this parent.
    FetchChildren { parent_id: String },
    /// The siblings' IDs, in order: fetch their deliverables and show them.
    Show(Vec<String>),
}

/// What `goal siblings` prints when there is nothing to show: `[]` as JSON,
/// else the note.
pub open spec fn empty_note(json: bool, note: Seq<char>) -> Seq<char> {
    if json {
        "[]"@
    } else {
        note
    }
}

fn note_line(json: bool, note: &str) -> (r: Vec<String>)
    ensures
        r@.len() == 1,
        r@[0]@ == empty_note(json, note@),
{
    let mut v: Vec<String> = Vec::new();
    v.push(if json {
        owned("[]")
    } else {
        owned(note)
    });
    v
}

/// After the goal itself is fetched: a root goal has no siblings; otherwise
/// fetch its parent's children.
pub fn siblings_after_goal(parent_id: Option<String>, json: bool) -> (r: SiblingsStep)
    ensures
        match parent_id {
            Some(p) => r == SiblingsStep::FetchChildren { parent_id: p },
            None => r matches SiblingsStep::Finish(lines) && lines@.len() == 1 && lines@[0]@
                == empty_note(json, "This goal has no parent (root goal). No siblings."@),
        },
{
    match parent_id {
        Some(p) => SiblingsStep::FetchChildren { parent_id: p },
        None => SiblingsStep::Finish(
            note_line(json, "This goal has no parent (root goal). No siblings."),
        ),
    }
}

/// The IDs other than `id`, in order.
pub open spec fn other_ids(ids: Seq<String>, id: Seq<char>) -> Seq<String> {
    ids.filter(|c: String| c@ != id)
}

/// After the parent's children are fetched: the goal's siblings are the
/// children other than itself; with none, say so.
pub fn siblings_after_children(child_ids: Vec<String>, id: &str, json: bool) -> (r: SiblingsStep)
    ensures
        other_ids(child_ids@, id@).len() == 0 ==> (r matches SiblingsStep::Finish(lines)
            && lines@.len() == 1 && lines@[0]@ == empty_note(json, "No sibling goals found."@)),
        other_ids(child_ids@, id@).len() > 0 ==> (r matches SiblingsStep::Show(v) && v@
            == other_ids(child_ids@, id@)),
{
    let mut kept: Vec<String> = Vec::new();
    let mut i: usize = 0;
    while i < child_ids.len()
        invariant
            i <= child_ids@.len(),
            kept@ == other_ids(child_ids@.take(i as int), id@),
        decreases child_ids@.len() - i,
    {
        proof {
            reveal(Seq::filter);
            assert(child_ids@.take(i + 1).drop_last() =~= child_ids@.take(i as int));
        }
        if !crate::text::str_eq(child_ids[i].as_str(), id) {
            kept.push(child_ids[i].clone());
        }
        i = i + 1;
    }
    assert(child_ids@.take(child_ids@.len() as int) =~= child_ids@);
    if kept.len() == 0 {
        SiblingsStep::Finish(note_line(json, "No sibling goals found."))
    } else {
        SiblingsStep::Show(kept)
    }
}

/// What `goal delete` does next.
#[derive(Debug, PartialEq, Eq)]
pub enum DeleteStep {
    /// Fetch the goal, to name it in the prompt.
    LookUp { id: String },
    /// Ask this `[y/N]` question.
    Ask { prompt: String },
    /// Delete the goal.
    Delete { id: String },
    /// Print this line and stop.
    Finish { line: String },
}

/// With `--force` the goal is deleted at once; otherwise it is looked up
/// first.
pub fn delete_start(id: &str, force: bool) -> (r: DeleteStep)
    ensures
        force ==> (r matches DeleteStep::Delete { id: x } && x@ == id@),
        !force ==> (r matches DeleteStep::LookUp { id: x } && x@ == id@),
{
    if force {
        DeleteStep::Delete { id: owned(id) }
    } else {
        DeleteStep::LookUp { id: owned(id) }
    }
}

/// The prompt names the goal by its title and ID.
pub fn delete_after_lookup(id: &str, title: &str) -> (r: DeleteStep)
    ensures
        r matches DeleteStep::Ask { prompt } && prompt@ == "Delete goal \""@ + title@ + "\" ("@
            + id@ + ")?"@,
{
    let mut p = owned("Delete goal \"");
    p.append(title);
    p.append("\" (");
    p.append(id);
    p.append(")?");
    DeleteStep::Ask { prompt: p }
}

/// The answer decides: `y` deletes, anything else cancels.
pub fn delete_after_answer(id: &str, answer: Option<&str>) -> (r: DeleteStep)
    ensures
        (answer matches Some(a) && ascii_lower(trim(a@)) == "y"@) ==> (r matches DeleteStep::Delete {
            id: x,
        } && x@ == id@),
        !(answer matches Some(a) && ascii_lower(trim(a@)) == "y"@) ==> (r matches DeleteStep::Finish {
            line,
        } && line@ == cancelled_text()),
{
    if destructive_gate(false, answer) {
        DeleteStep::Delete { id: owned(id) }
    } else {
        DeleteStep::Finish { line: owned("Cancelled.") }
    }
}

/// `Deleted goal <id>`.
pub fn deleted_goal_line(id: &str) -> (r: String)
    ensures
        r@ == "Deleted goal "@ + id@,
{
    let mut s = owned("Deleted goal ");
    s.append(id);
    s
}

/// `Created goal: <title> (<id>)`.
pub fn created_goal_line(title: &str, id: &str) -> (r: String)
    ensures
        r@ == "Created goal: "@ + title@ + " ("@ + id@ + ")"@,
{
    let mut s = owned("Created goal: ");
    s.append(title);
    s.append(" (");
    s.append(id);
    s.append(")");
    s
}

/// `Goal <id> <action>` after archive, unarchive or restore.
pub fn goal_status_result_line(action: &str, id: &str) -> (r: String)
    ensures
        r@ == "Goal "@ + id@ + " "@ + action@,
{
    let mut s = owned("Goal ");
    s.append(id);
    s.append(" ");
    s.append(action);
    s
}

/// `Duplicated goal: <title> (<id>) under parent <parent>`.
pub fn duplicated_goal_line(title: &str, id: &str, parent: &str) -> (r: String)
    ensures
        r@ == "Duplicated goal: "@ + title@ + " ("@ + id@ + ") under parent "@ + parent@,
{
    let mut s = owned("Duplicated goal: ");
    s.append(title);
    s.append(" (");
    s.append(id);
    s.append(") under parent ");
    s.append(parent);
    s
}

} // verus!
