//! `search`: the one-line summary of a search hit.

use vstd::prelude::*;
use crate::json::{json_str_field, str_field};
use crate::text::{chars_of, flatten_newline_chars, flatten_newlines, owned, string_from_range};

verus! {

/// The first of `title`, `content`, `displayName` and `name` that the hit
/// (JSON text) carries as a string.
pub open spec fn hit_text(data: Seq<char>) -> Option<Seq<char>> {
    match json_str_field(data, "title"@) {
        Some(t) => Some(t),
        None => match json_str_field(data, "content"@) {
            Some(t) => Some(t),
            None => match json_str_field(data, "displayName"@) {
                Some(t) => Some(t),
                None => json_str_field(data, "name"@),
            },
        },
    }
}

/// The summary of a hit: its text on one line, cut to its first 80
/// characters; `-` when it has none.
pub open spec fn hit_summary(data: Seq<char>) -> Seq<char> {
    match hit_text(data) {
        Some(t) => {
            let flat = flatten_newlines(t);
            if flat.len() <= 80 {
                flat
            } else {
                flat.take(80)
            }
        },
        None => "-"@,
    }
}

/// The summary line of a search hit given as JSON text.
pub fn summarize_item(data: &str) -> (r: String)
    ensures
        r@ == hit_summary(data@),
{
    let text = match str_field(data, "title") {
        Some(t) => Some(t),
        None => match str_field(data, "content") {
            Some(t) => Some(t),
            None => match str_field(data, "displayName") {
                Some(t) => Some(t),
                None => str_field(data, "name"),
            },
        },
    };
    match text {
        Some(t) => {
            let v = chars_of(t.as_str());
            let flat = flatten_newline_chars(&v);
            let n = if flat.len() <= 80 {
                flat.len()
            } else {
                80
            };
            let r = string_from_range(&flat, 0, n);
            assert(flat@.subrange(0, n as int) =~= if flat@.len() <= 80 {
                flat@
            } else {
                flat@.take(80)
            });
            r
        },
        None => owned("-"),
    }
}

} // verus!
