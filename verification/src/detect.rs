//! Detecting the goal a git branch works on.

use vstd::prelude::*;
use crate::text::{owned, chars_of, has_infix, split_by, split_fields, str_eq, trim, trimmed, views};

verus! {

/// What the `regex` crate finds for the pattern
/// `[0-9a-f]{8}-[0-9a-f]{4}-[0-9a-f]{4}-[0-9a-f]{4}-[0-9a-f]{12}` in the
/// text: the leftmost match, if any.
pub uninterp spec fn uuid_match(s: Seq<char>) -> Option<Seq<char>>;

/// `Regex::new(UUID_PATTERN)?.find(segment)` as text. Trusted: the result is
/// named `uuid_match` of the segment, and a match is a piece of the segment
/// (`Regex::find` returns a span of the haystack) of the 36 characters that
/// the pattern spells out.
#[verifier::external_body]
fn find_uuid(segment: &str) -> (r: Option<String>)
    ensures
        opt_text(r) == uuid_match(segment@),
        r matches Some(m) ==> m@.len() == 36 && has_infix(segment@, m@),
{
    regex::Regex::new(r"[0-9a-f]{8}-[0-9a-f]{4}-[0-9a-f]{4}-[0-9a-f]{4}-[0-9a-f]{12}")
        .ok()
        .and_then(|re| re.find(segment).map(|m| m.as_str().to_string()))
}

pub open spec fn opt_text(o: Option<String>) -> Option<Seq<char>> {
    match o {
        Some(s) => Some(s@),
        None => None,
    }
}

/// The first UUID found in the `/`-separated segments of `segments`, in
/// order.
pub open spec fn first_uuid(segments: Seq<Seq<char>>) -> Option<Seq<char>>
    decreases segments.len(),
{
    if segments.len() == 0 {
        None
    } else {
        match uuid_match(segments[0]) {
            Some(m) => Some(m),
            None => first_uuid(segments.drop_first()),
        }
    }
}

proof fn lemma_first_uuid_skip(segments: Seq<Seq<char>>, i: int)
    requires
        0 <= i <= segments.len(),
        forall|j: int| 0 <= j < i ==> uuid_match(#[trigger] segments[j]) is None,
    ensures
        first_uuid(segments) == first_uuid(segments.skip(i)),
    decreases i,
{
    if i > 0 {
        lemma_first_uuid_skip(segments.drop_first(), i - 1);
        assert(segments.drop_first().skip(i - 1) =~= segments.skip(i));
    } else {
        assert(segments.skip(0) =~= segments);
    }
}

/// The goal id in a branch name such as `goal/<UUID>/description`,
/// `goal/<UUID>` or `feature/goal-<UUID>/description`: the first UUID found
/// in its `/`-separated segments.
pub fn extract_goal_id(branch: &str) -> (r: Option<String>)
    ensures
        opt_text(r) == first_uuid(split_fields(branch@, '/')),
        r matches Some(m) ==> m@.len() == 36,
{
    let v = chars_of(branch);
    let segments = split_by(&v, '/');
    let mut i: usize = 0;
    while i < segments.len()
        invariant
            i <= segments.len(),
            views(segments@) == split_fields(branch@, '/'),
            forall|j: int| 0 <= j < i ==> uuid_match(#[trigger] views(segments@)[j]) is None,
        decreases segments.len() - i,
    {
        assert(views(segments@)[i as int] == segments@[i as int]@);
        match find_uuid(segments[i].as_str()) {
            Some(m) => {
                proof {
                    lemma_first_uuid_skip(views(segments@), i as int);
                    assert(views(segments@).skip(i as int)[0] == segments@[i as int]@);
                }
                return Some(m);
            },
            None => {},
        }
        i = i + 1;
    }
    proof {
        lemma_first_uuid_skip(views(segments@), segments@.len() as int);
    }
    None
}

/// The goal id for the output of `git rev-parse --abbrev-ref HEAD`: none
/// for `HEAD` (a repository without commits), else the id in the branch
/// name.
pub fn goal_id_from_branch(output: &str) -> (r: Option<String>)
    ensures
        trim(output@) == "HEAD"@ ==> r is None,
        trim(output@) != "HEAD"@ ==> opt_text(r) == first_uuid(split_fields(trim(output@), '/')),
{
    let branch = trimmed(output);
    if str_eq(branch.as_str(), "HEAD") {
        return None;
    }
    extract_goal_id(branch.as_str())
}

/// The pretty-printed JSON object `{"detected": .., "goal_id": ..}` that
/// `serde_json::to_string_pretty` writes for a detected id (`detected`
/// true) or for none (`goal_id` null, `detected` false).
pub uninterp spec fn detect_json_text(id: Option<Seq<char>>) -> Seq<char>;

/// `serde_json::to_string_pretty` of `{"goal_id": id, "detected": ..}`.
/// Trusted: named `detect_json_text` of the id.
#[verifier::external_body]
fn detect_json(id: Option<&str>) -> (r: String)
    ensures
        r@ == detect_json_text(
            match id {
                Some(t) => Some(t@),
                None => None,
            },
        ),
{
    let mut m = serde_json::Map::new();
    m.insert("goal_id".to_string(), match id {
        Some(t) => serde_json::Value::String(t.to_string()),
        None => serde_json::Value::Null,
    });
    m.insert("detected".to_string(), serde_json::Value::Bool(id.is_some()));
    serde_json::to_string_pretty(&serde_json::Value::Object(m)).unwrap_or_default()
}

/// The error of `detect-goal` on a branch without a goal id.
pub open spec fn no_goal_error() -> Seq<char> {
    "No goal ID found in current branch name.\nUse branch naming: goal/<GOAL_ID>/description"@
}

/// What `addness detect-goal` prints for the id found (if any): the JSON
/// object with `--json`, else the bare id; without an id and without
/// `--json` it fails.
pub fn detect_goal_output(id: Option<&str>, json: bool) -> (r: Result<String, String>)
    ensures
        json ==> (r matches Ok(t) && t@ == detect_json_text(
            match id {
                Some(x) => Some(x@),
                None => None,
            },
        )),
        !json ==> match id {
            Some(x) => r matches Ok(t) && t@ == x@,
            None => r matches Err(e) && e@ == no_goal_error(),
        },
{
    if json {
        return Ok(detect_json(id));
    }
    match id {
        Some(x) => Ok(owned(x)),
        None => Err(owned("No goal ID found in current branch name.\nUse branch naming: goal/<GOAL_ID>/description")),
    }
}

} // verus!
