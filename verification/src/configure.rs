//! Interactive configuration: key masking and answers to prompts.

use vstd::prelude::*;
use crate::text::{blank, chars_of, concat3, is_blank, owned, string_from_range, str_eq, trim, trim_bounds};
use vstd::utf8::{decode_utf8, encode_utf8_decode_utf8, is_char_boundary};
use vstd::string::StringSliceAdditionalSpecFns;

verus! {


/// Whether `mask_key` can cut `key` at byte 6 and 4 bytes before its end
/// without splitting a character (always so for ASCII keys).
pub open spec fn maskable(key: &str) -> bool {
    key.spec_bytes().len() > 10 ==> is_char_boundary(key.spec_bytes(), 6) && is_char_boundary(
        key.spec_bytes(),
        key.spec_bytes().len() - 4,
    )
}

/// `key` masked for display: its first 6 and last 4 bytes around `...`
/// when it is longer than 10 bytes, otherwise `***`.
pub open spec fn masked(key: &str) -> Seq<char> {
    let b = key.spec_bytes();
    if b.len() > 10 {
        decode_utf8(b.subrange(0, 6)) + "..."@ + decode_utf8(b.subrange(b.len() - 4, b.len() as int))
    } else {
        "***"@
    }
}

pub fn mask_key(key: &str) -> (r: String)
    requires
        maskable(key),
    ensures
        r@ == masked(key),
{
    let n = key.as_bytes().len();
    if n > 10 {
        let (head, _) = key.split_at(6);
        let (_, tail) = key.split_at(n - 4);
        proof {
            encode_utf8_decode_utf8(head@);
            encode_utf8_decode_utf8(tail@);
        }
        concat3(head, "...", tail)
    } else {
        owned("***")
    }
}

/// An API key must not be blank.
pub fn ensure_non_empty_api_key(api_key: &str) -> (r: Result<(), String>)
    ensures
        r is Ok <==> !is_blank(api_key@),
        r matches Err(e) ==> e@ == "API Key cannot be empty. Run `addness login` or enter an API key."@,
{
    if blank(api_key) {
        return Err(owned("API Key cannot be empty. Run `addness login` or enter an API key."));
    }
    Ok(())
}

/// The value a prompt yields for the line the user typed: the trimmed line,
/// or `default` when it is blank.
pub fn prompt_answer(input: &str, default: &str) -> (r: String)
    ensures
        r@ == (if is_blank(input@) {
            default@
        } else {
            trim(input@)
        }),
{
    let v = chars_of(input);
    let (lo, hi) = trim_bounds(&v);
    if lo == hi {
        owned(default)
    } else {
        string_from_range(&v, lo, hi)
    }
}

/// The key to save: the stored key when the answer is its masked hint
/// (the user kept it), otherwise the answer.
pub fn chosen_api_key(answer: String, key_hint: &str, current_key: String) -> (r: String)
    ensures
        r == (if answer@ == key_hint@ {
            current_key
        } else {
            answer
        }),
{
    if str_eq(answer.as_str(), key_hint) {
        current_key
    } else {
        answer
    }
}

/// The slot a key is stored under: the organization ID, or `_default`
/// without one.
pub fn credential_slot(org_id: &str) -> (r: String)
    ensures
        r@ == (if org_id@.len() == 0 {
            "_default"@
        } else {
            org_id@
        }),
{
    if org_id.is_empty() {
        owned("_default")
    } else {
        owned(org_id)
    }
}

} // verus!
