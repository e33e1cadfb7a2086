//! Links and progress notes: pull-request display names.

use vstd::prelude::*;
use crate::text::{chars_of, owned, split_by, split_fields, str_eq, views};

verus! {

#[derive(Debug)]
pub enum LinkCommands {
    /// Link a PR or URL to a goal
    Pr {
        /// Goal ID
        goal: String,
        /// PR URL (e.g., https://github.com/org/repo/pull/42)
        url: String,
        /// Display name (auto-detected from URL if omitted)
        name: Option<String>,
        /// Also post a comment on the goal
        comment: Option<String>,
        /// Output as JSON
        json: bool,
    },
    /// Record a progress note on a goal (comment + optional status update)
    Progress {
        /// Goal ID
        goal: String,
        /// Progress message
        message: String,
        /// Update status: NOT_STARTED, IN_PROGRESS, COMPLETED, CANCELLED
        status: Option<String>,
        /// Output as JSON
        json: bool,
    },
}

/// `s` without the trailing `c`s (`str::trim_end_matches`).
pub open spec fn strip_trailing(s: Seq<char>, c: char) -> Seq<char>
    decreases s.len(),
{
    if s.len() > 0 && s.last() == c {
        strip_trailing(s.drop_last(), c)
    } else {
        s
    }
}

/// The display name of a pull-request URL: `org/repo#42` for
/// `https://github.com/org/repo/pull/42` (or `.../pulls/42`), otherwise the
/// URL itself.
pub open spec fn pr_display_name_spec(url: Seq<char>) -> Seq<char> {
    let parts = split_fields(strip_trailing(url, '/'), '/');
    let n = parts.len();
    if n >= 5 && (parts[n - 2] == "pull"@ || parts[n - 2] == "pulls"@) {
        parts[n - 4] + "/"@ + parts[n - 3] + "#"@ + parts[n - 1]
    } else {
        url
    }
}

pub fn pr_display_name(url: &str) -> (r: String)
    ensures
        r@ == pr_display_name_spec(url@),
{
    let v = chars_of(url);
    let mut end = v.len();
    assert(v@.take(end as int) =~= v@);
    while end > 0 && v[end - 1] == '/'
        invariant
            end <= v.len(),
            strip_trailing(v@, '/') == strip_trailing(v@.take(end as int), '/'),
        decreases end,
    {
        assert(v@.take(end as int).drop_last() =~= v@.take(end - 1));
        end = end - 1;
    }
    let mut trimmed: Vec<char> = Vec::new();
    let mut i: usize = 0;
    while i < end
        invariant
            i <= end <= v.len(),
            trimmed@ == v@.take(i as int),
        decreases end - i,
    {
        trimmed.push(v[i]);
        assert(v@.take(i + 1) =~= v@.take(i as int).push(v@[i as int]));
        i = i + 1;
    }
    proof {
        assert(v@.take(v.len() as int) =~= v@);
        if end > 0 {
            assert(v@.take(end as int).last() != '/');
        }
        assert(strip_trailing(v@.take(end as int), '/') == v@.take(end as int));
    }
    let parts = split_by(&trimmed, '/');
    let n = parts.len();
    if n >= 5 {
        assert(views(parts@)[n - 2] == parts@[n - 2]@);
        if str_eq(parts[n - 2].as_str(), "pull") || str_eq(parts[n - 2].as_str(), "pulls") {
            assert(views(parts@)[n - 4] == parts@[n - 4]@);
            assert(views(parts@)[n - 3] == parts@[n - 3]@);
            assert(views(parts@)[n - 1] == parts@[n - 1]@);
            let mut r = parts[n - 4].clone();
            r.append("/");
            r.append(parts[n - 3].as_str());
            r.append("#");
            r.append(parts[n - 1].as_str());
            return r;
        }
    }
    owned(url)
}

} // verus!
