use vstd::prelude::*;

verus! {

// ---------------------------------------------------------------------------
// Character classes
// ---------------------------------------------------------------------------

/// The Unicode `White_Space` property (the set used by `char::is_whitespace`,
/// `str::trim` and `str::split_whitespace`).
pub open spec fn is_ws(c: char) -> bool {
    ||| ('\u{9}' <= c && c <= '\u{d}')
    ||| c == ' '
    ||| c == '\u{85}'
    ||| c == '\u{a0}'
    ||| c == '\u{1680}'
    ||| ('\u{2000}' <= c && c <= '\u{200a}')
    ||| c == '\u{2028}'
    ||| c == '\u{2029}'
    ||| c == '\u{202f}'
    ||| c == '\u{205f}'
    ||| c == '\u{3000}'
}

/// The Unicode general category `Cc` (the set used by `char::is_control`).
pub open spec fn is_control(c: char) -> bool {
    ('\u{0}' <= c && c <= '\u{1f}') || ('\u{7f}' <= c && c <= '\u{9f}')
}

/// Whether `c` is a whitespace character.
pub fn is_whitespace_char(c: char) -> (b: bool)
    ensures
        b == is_ws(c),
{
    ('\u{9}' <= c && c <= '\u{d}') || c == ' ' || c == '\u{85}' || c == '\u{a0}' || c
        == '\u{1680}' || ('\u{2000}' <= c && c <= '\u{200a}') || c == '\u{2028}' || c
        == '\u{2029}' || c == '\u{202f}' || c == '\u{205f}' || c == '\u{3000}'
}

/// Whether `c` is a control character.
pub fn is_control_char(c: char) -> (b: bool)
    ensures
        b == is_control(c),
{
    ('\u{0}' <= c && c <= '\u{1f}') || ('\u{7f}' <= c && c <= '\u{9f}')
}

// ---------------------------------------------------------------------------
// Trimming
// ---------------------------------------------------------------------------

/// `s` without its leading whitespace.
pub open spec fn trim_start(s: Seq<char>) -> Seq<char>
    decreases s.len(),
{
    if s.len() > 0 && is_ws(s[0]) {
        trim_start(s.drop_first())
    } else {
        s
    }
}

/// `s` without its trailing whitespace.
pub open spec fn trim_end(s: Seq<char>) -> Seq<char>
    decreases s.len(),
{
    if s.len() > 0 && is_ws(s.last()) {
        trim_end(s.drop_last())
    } else {
        s
    }
}

/// `s` without its leading and trailing whitespace (`str::trim`).
pub open spec fn trim(s: Seq<char>) -> Seq<char> {
    trim_end(trim_start(s))
}

/// Whether `s` holds nothing but whitespace (`s.trim().is_empty()`).
pub open spec fn is_blank(s: Seq<char>) -> bool {
    trim(s).len() == 0
}

proof fn lemma_trim_start_skip(s: Seq<char>, i: int)
    requires
        0 <= i <= s.len(),
        forall|j: int| 0 <= j < i ==> is_ws(#[trigger] s[j]),
    ensures
        trim_start(s) == trim_start(s.subrange(i, s.len() as int)),
    decreases i,
{
    if i > 0 {
        assert(s.drop_first() =~= s.subrange(1, s.len() as int));
        lemma_trim_start_skip(s.drop_first(), i - 1);
        assert(s.drop_first().subrange(i - 1, s.drop_first().len() as int) =~= s.subrange(
            i,
            s.len() as int,
        ));
    } else {
        assert(s.subrange(0, s.len() as int) =~= s);
    }
}

proof fn lemma_trim_end_cut(s: Seq<char>, j: int)
    requires
        0 <= j <= s.len(),
        forall|k: int| j <= k < s.len() ==> is_ws(#[trigger] s[k]),
    ensures
        trim_end(s) == trim_end(s.subrange(0, j)),
    decreases s.len() - j,
{
    if j < s.len() {
        lemma_trim_end_cut(s.drop_last(), j);
        assert(s.drop_last().subrange(0, j) =~= s.subrange(0, j));
    } else {
        assert(s.subrange(0, j) =~= s);
    }
}

proof fn lemma_trim_start_shape(s: Seq<char>)
    ensures
        trim_start(s).len() == 0 || !is_ws(trim_start(s)[0]),
        trim_start(s).len() <= s.len(),
        trim_start(s) == s.skip(s.len() - trim_start(s).len()),
    decreases s.len(),
{
    if s.len() > 0 && is_ws(s[0]) {
        lemma_trim_start_shape(s.drop_first());
        assert(s.drop_first().skip(s.drop_first().len() - trim_start(s).len()) =~= s.skip(
            s.len() - trim_start(s).len(),
        ));
    } else {
        assert(s.skip(0) =~= s);
    }
}

proof fn lemma_trim_end_shape(s: Seq<char>)
    ensures
        trim_end(s).len() == 0 || !is_ws(trim_end(s).last()),
        trim_end(s).len() <= s.len(),
        trim_end(s) == s.take(trim_end(s).len() as int),
    decreases s.len(),
{
    if s.len() > 0 && is_ws(s.last()) {
        lemma_trim_end_shape(s.drop_last());
        assert(s.drop_last().take(trim_end(s).len() as int) =~= s.take(trim_end(s).len() as int));
    } else {
        assert(s.take(s.len() as int) =~= s);
    }
}

/// Trimming twice gives what trimming once gives.
pub proof fn trim_is_idempotent(s: Seq<char>)
    ensures
        trim(trim(s)) == trim(s),
{
    let a = trim_start(s);
    let t = trim_end(a);
    lemma_trim_start_shape(s);
    lemma_trim_end_shape(a);
    if t.len() > 0 {
        assert(t[0] == a[0]);
    }
    assert(trim_start(t) == t);
    assert(trim_end(t) == t);
}

/// A string made of `v[lo..hi]`.
pub fn string_from_range(v: &Vec<char>, lo: usize, hi: usize) -> (r: String)
    requires
        lo <= hi <= v.len(),
    ensures
        r@ == v@.subrange(lo as int, hi as int),
{
    let mut r = String::new();
    let mut i = lo;
    while i < hi
        invariant
            lo <= i <= hi <= v.len(),
            r@ == v@.subrange(lo as int, i as int),
        decreases hi - i,
    {
        push_char(&mut r, v[i]);
        assert(v@.subrange(lo as int, i + 1) =~= v@.subrange(lo as int, i as int).push(v@[i as int]));
        i = i + 1;
    }
    r
}

/// The bounds of `v[lo..hi]` with its surrounding whitespace removed.
pub fn trim_bounds_in(v: &Vec<char>, lo: usize, hi: usize) -> (r: (usize, usize))
    requires
        lo <= hi <= v.len(),
    ensures
        lo <= r.0 <= r.1 <= hi,
        v@.subrange(r.0 as int, r.1 as int) == trim(v@.subrange(lo as int, hi as int)),
{
    let ghost s = v@.subrange(lo as int, hi as int);
    let mut i: usize = lo;
    while i < hi && is_whitespace_char(v[i])
        invariant
            lo <= i <= hi <= v.len(),
            s == v@.subrange(lo as int, hi as int),
            forall|j: int| lo <= j < i ==> is_ws(#[trigger] v@[j]),
        decreases hi - i,
    {
        i = i + 1;
    }
    proof {
        assert forall|j: int| 0 <= j < i - lo implies is_ws(#[trigger] s[j]) by {
            assert(s[j] == v@[j + lo]);
        }
        lemma_trim_start_skip(s, i - lo);
        assert(s.subrange(i - lo, s.len() as int) =~= v@.subrange(i as int, hi as int));
    }
    let ghost rest = v@.subrange(i as int, hi as int);
    let mut j: usize = hi;
    while j > i && is_whitespace_char(v[j - 1])
        invariant
            lo <= i <= j <= hi <= v.len(),
            rest == v@.subrange(i as int, hi as int),
            forall|k: int| j <= k < hi ==> is_ws(#[trigger] v@[k]),
        decreases j,
    {
        j = j - 1;
    }
    proof {
        assert forall|k: int| j - i <= k < rest.len() implies is_ws(#[trigger] rest[k]) by {
            assert(rest[k] == v@[k + i]);
        }
        lemma_trim_end_cut(rest, j - i);
        let cut = rest.subrange(0, j - i);
        assert(cut =~= v@.subrange(i as int, j as int));
        if i < j {
            assert(!is_ws(v@[i as int]));
            assert(rest[0] == v@[i as int]);
            assert(trim_start(rest) == rest);
            assert(cut.last() == v@[j - 1]);
        } else {
            if i < hi {
                assert(!is_ws(v@[i as int]));
                assert(rest[0] == v@[i as int]);
                assert(trim_start(rest) == rest);
            } else {
                assert(rest.len() == 0);
            }
        }
        assert(trim_start(s) == trim_start(rest));
    }
    (i, j)
}

/// The bounds of `v` with its surrounding whitespace removed.
pub fn trim_bounds(v: &Vec<char>) -> (r: (usize, usize))
    ensures
        r.0 <= r.1 <= v.len(),
        v@.subrange(r.0 as int, r.1 as int) == trim(v@),
{
    let r = trim_bounds_in(v, 0, v.len());
    assert(v@.subrange(0, v.len() as int) =~= v@);
    r
}

/// `s` with its surrounding whitespace removed (`s.trim().to_string()`).
pub fn trimmed(s: &str) -> (r: String)
    ensures
        r@ == trim(s@),
{
    let v = chars_of(s);
    let (lo, hi) = trim_bounds(&v);
    string_from_range(&v, lo, hi)
}

/// Whether `s` holds nothing but whitespace.
pub fn blank(s: &str) -> (b: bool)
    ensures
        b == is_blank(s@),
{
    let v = chars_of(s);
    let (lo, hi) = trim_bounds(&v);
    lo == hi
}

// ---------------------------------------------------------------------------
// Building strings
// ---------------------------------------------------------------------------

/// The characters of `s`, in order.
pub fn chars_of(s: &str) -> (v: Vec<char>)
    ensures
        v@ == s@,
{
    let mut v: Vec<char> = Vec::new();
    for c in it: s.chars()
        invariant
            v@ == it.seq().take(it.index() as int),
    {
        v.push(c);
    }
    v
}

/// `String::push`: appends one character.
#[verifier::external_body]
pub(crate) fn push_char(s: &mut String, c: char)
    ensures
        final(s)@ == old(s)@.push(c),
{
    s.push(c);
}

/// The number of characters in `s` (`s.chars().count()`).
pub fn char_count(s: &str) -> (n: usize)
    ensures
        n == s@.len(),
{
    s.unicode_len()
}


/// Appends `t` to `s`.
pub fn append_str(s: &mut String, t: &str)
    ensures
        final(s)@ == old(s)@ + t@,
{
    s.append(t);
}

/// `a` followed by `b`.
pub fn concat2(a: &str, b: &str) -> (r: String)
    ensures
        r@ == a@ + b@,
{
    let mut r = String::from_str(a);
    r.append(b);
    r
}

/// `a`, `b` and `c` in sequence.
pub fn concat3(a: &str, b: &str, c: &str) -> (r: String)
    ensures
        r@ == a@ + b@ + c@,
{
    let mut r = String::from_str(a);
    r.append(b);
    r.append(c);
    r
}

/// Whether `a` and `b` hold the same characters.
pub fn str_eq(a: &str, b: &str) -> (r: bool)
    ensures
        r == (a@ == b@),
{
    let x = String::from_str(a);
    let y = String::from_str(b);
    x == y
}

/// The text of an optional string.
pub open spec fn opt_view(o: Option<String>) -> Option<Seq<char>> {
    match o {
        Some(s) => Some(s@),
        None => None,
    }
}

/// A copy of an optional string.
pub fn copy_opt(v: &Option<String>) -> (r: Option<String>)
    ensures
        r == *v,
{
    match v {
        Some(s) => Some(s.clone()),
        None => None,
    }
}

/// An owned copy of `s`.
pub fn owned(s: &str) -> (r: String)
    ensures
        r@ == s@,
{
    String::from_str(s)
}

// ---------------------------------------------------------------------------
// Splitting on a separator
// ---------------------------------------------------------------------------

/// The fields of `s` between occurrences of `sep` (`str::split` on one
/// character): always at least one field, possibly empty.
pub open spec fn split_fields(s: Seq<char>, sep: char) -> Seq<Seq<char>>
    decreases s.len(),
{
    if s.len() == 0 {
        seq![Seq::<char>::empty()]
    } else {
        let r = split_fields(s.drop_last(), sep);
        if s.last() == sep {
            r.push(Seq::<char>::empty())
        } else {
            r.update(r.len() - 1, r.last().push(s.last()))
        }
    }
}

/// The trimmed fields of `parts` that are not empty after trimming, in order.
pub open spec fn trimmed_nonempty(parts: Seq<Seq<char>>) -> Seq<Seq<char>>
    decreases parts.len(),
{
    if parts.len() == 0 {
        Seq::<Seq<char>>::empty()
    } else {
        let r = trimmed_nonempty(parts.drop_last());
        if trim(parts.last()).len() > 0 {
            r.push(trim(parts.last()))
        } else {
            r
        }
    }
}

/// The trimmed, non-empty, comma-separated items of `s`.
pub open spec fn csv_items(s: Seq<char>) -> Seq<Seq<char>> {
    trimmed_nonempty(split_fields(s, ','))
}

/// The items of a comma-separated list are never empty, are already
/// trimmed, and hold no comma.
pub proof fn csv_items_are_trimmed_and_nonempty(s: Seq<char>)
    ensures
        forall|i: int|
            0 <= i < csv_items(s).len() ==> (#[trigger] csv_items(s)[i]).len() > 0 && trim(
                csv_items(s)[i],
            ) == csv_items(s)[i] && !csv_items(s)[i].contains(','),
{
    lemma_fields_have_no_sep(s, ',');
    lemma_trimmed_nonempty_items(split_fields(s, ','), ',');
}

proof fn lemma_fields_have_no_sep(s: Seq<char>, sep: char)
    ensures
        forall|i: int| 0 <= i < split_fields(s, sep).len() ==> !(#[trigger] split_fields(s, sep)[i]).contains(sep),
    decreases s.len(),
{
    if s.len() > 0 {
        lemma_fields_have_no_sep(s.drop_last(), sep);
        lemma_split_fields_nonempty(s.drop_last(), sep);
        let r = split_fields(s.drop_last(), sep);
        if s.last() != sep {
            let l = r.last().push(s.last());
            assert forall|i: int| 0 <= i < split_fields(s, sep).len() implies !(#[trigger] split_fields(s, sep)[i]).contains(sep) by {
                if i == r.len() - 1 {
                    assert(split_fields(s, sep)[i] == l);
                    assert(!r[r.len() - 1].contains(sep));
                    if l.contains(sep) {
                        let k = choose|k: int| 0 <= k < l.len() && l[k] == sep;
                        if k < l.len() - 1 {
                            assert(r.last()[k] == sep);
                        }
                    }
                }
            }
        } else {
            assert forall|i: int| 0 <= i < split_fields(s, sep).len() implies !(#[trigger] split_fields(s, sep)[i]).contains(sep) by {
                if i < r.len() {
                    assert(split_fields(s, sep)[i] == r[i]);
                }
            }
        }
    }
}

proof fn lemma_trim_sub(x: Seq<char>, c: char)
    requires
        !x.contains(c),
    ensures
        !trim(x).contains(c),
{
    lemma_trim_start_shape(x);
    lemma_trim_end_shape(trim_start(x));
    let a = trim_start(x);
    let t = trim(x);
    if t.contains(c) {
        let k = choose|k: int| 0 <= k < t.len() && t[k] == c;
        assert(t[k] == a[k]);
        assert(a[k] == x[k + x.len() - a.len()]);
    }
}

proof fn lemma_trimmed_nonempty_items(parts: Seq<Seq<char>>, c: char)
    requires
        forall|i: int| 0 <= i < parts.len() ==> !(#[trigger] parts[i]).contains(c),
    ensures
        forall|i: int|
            0 <= i < trimmed_nonempty(parts).len() ==> (#[trigger] trimmed_nonempty(parts)[i]).len() > 0
                && trim(trimmed_nonempty(parts)[i]) == trimmed_nonempty(parts)[i]
                && !trimmed_nonempty(parts)[i].contains(c),
    decreases parts.len(),
{
    if parts.len() > 0 {
        let init = parts.drop_last();
        assert forall|i: int| 0 <= i < init.len() implies !(#[trigger] init[i]).contains(c) by {
            assert(init[i] == parts[i]);
        }
        lemma_trimmed_nonempty_items(init, c);
        let p = parts.last();
        assert(!parts[parts.len() - 1].contains(c));
        trim_is_idempotent(p);
        lemma_trim_sub(p, c);
        let r = trimmed_nonempty(init);
        let all = trimmed_nonempty(parts);
        assert forall|i: int| 0 <= i < all.len() implies (#[trigger] all[i]).len() > 0 && trim(all[i])
            == all[i] && !all[i].contains(c) by {
            if i < r.len() {
                assert(all[i] == r[i]);
            } else {
                assert(all[i] == trim(p));
            }
        }
    }
}

/// The characters of each string in `v`.
pub open spec fn views(v: Seq<String>) -> Seq<Seq<char>> {
    v.map_values(|x: String| x@)
}

pub proof fn lemma_split_fields_nonempty(s: Seq<char>, sep: char)
    ensures
        split_fields(s, sep).len() >= 1,
    decreases s.len(),
{
    if s.len() > 0 {
        lemma_split_fields_nonempty(s.drop_last(), sep);
    }
}

proof fn lemma_trimmed_nonempty_push(parts: Seq<Seq<char>>, p: Seq<char>)
    ensures
        trimmed_nonempty(parts.push(p)) == (if trim(p).len() > 0 {
            trimmed_nonempty(parts).push(trim(p))
        } else {
            trimmed_nonempty(parts)
        }),
{
    assert(parts.push(p).drop_last() =~= parts);
}

/// The trimmed, non-empty, comma-separated items of `csv`.
pub fn csv_split(csv: &str) -> (r: Vec<String>)
    ensures
        views(r@) == csv_items(csv@),
{
    let v = chars_of(csv);
    let n = v.len();
    let mut out: Vec<String> = Vec::new();
    let mut start: usize = 0;
    let mut i: usize = 0;
    let ghost mut done: Seq<Seq<char>> = Seq::empty();
    assert(v@.take(0) =~= Seq::<char>::empty());
    assert(done.push(v@.subrange(0, 0)) =~= seq![Seq::<char>::empty()]);
    while i < n
        invariant
            start <= i <= n == v.len(),
            split_fields(v@.take(i as int), ',') == done.push(v@.subrange(start as int, i as int)),
            views(out@) == trimmed_nonempty(done),
        decreases n - i,
    {
        let ghost cur = v@.subrange(start as int, i as int);
        assert(v@.take(i + 1).drop_last() =~= v@.take(i as int));
        assert(v@.take(i + 1).last() == v@[i as int]);
        if v[i] == ',' {
            let (lo, hi) = trim_bounds_in(&v, start, i);
            proof {
                lemma_trimmed_nonempty_push(done, cur);
            }
            if lo < hi {
                let item = string_from_range(&v, lo, hi);
                let ghost old_out = out@;
                out.push(item);
                assert(views(out@) =~= views(old_out).push(item@));
            }
            proof {
                done = done.push(cur);
            }
            start = i + 1;
            assert(v@.subrange(start as int, i + 1) =~= Seq::<char>::empty());
        } else {
            assert(v@.subrange(start as int, i + 1) =~= cur.push(v@[i as int]));
            assert(done.push(cur).update(done.len() as int, cur.push(v@[i as int])) =~= done.push(
                cur.push(v@[i as int]),
            ));
        }
        i = i + 1;
    }
    assert(v@.take(n as int) =~= v@);
    let (lo, hi) = trim_bounds_in(&v, start, n);
    proof {
        lemma_trimmed_nonempty_push(done, v@.subrange(start as int, n as int));
    }
    if lo < hi {
        let item = string_from_range(&v, lo, hi);
        let ghost old_out = out@;
        out.push(item);
        assert(views(out@) =~= views(old_out).push(item@));
    }
    out
}


/// Appends `v[lo..hi]` to `s`.
pub fn append_range(s: &mut String, v: &Vec<char>, lo: usize, hi: usize)
    requires
        lo <= hi <= v.len(),
    ensures
        final(s)@ == old(s)@ + v@.subrange(lo as int, hi as int),
{
    let ghost s0 = s@;
    let mut i = lo;
    while i < hi
        invariant
            lo <= i <= hi <= v.len(),
            s@ == s0 + v@.subrange(lo as int, i as int),
        decreases hi - i,
    {
        push_char(s, v[i]);
        assert(v@.subrange(lo as int, i + 1) =~= v@.subrange(lo as int, i as int).push(v@[i as int]));
        i = i + 1;
    }
}

/// The fields of `v` between occurrences of `sep` (`str::split`).
pub fn split_by(v: &Vec<char>, sep: char) -> (r: Vec<String>)
    ensures
        views(r@) == split_fields(v@, sep),
{
    let n = v.len();
    let mut out: Vec<String> = Vec::new();
    let mut start: usize = 0;
    let mut i: usize = 0;
    assert(v@.take(0) =~= Seq::<char>::empty());
    assert(views(out@).push(v@.subrange(0, 0)) =~= seq![Seq::<char>::empty()]);
    while i < n
        invariant
            start <= i <= n == v.len(),
            split_fields(v@.take(i as int), sep) == views(out@).push(v@.subrange(start as int, i as int)),
        decreases n - i,
    {
        let ghost cur = v@.subrange(start as int, i as int);
        let ghost done = views(out@);
        assert(v@.take(i + 1).drop_last() =~= v@.take(i as int));
        assert(v@.take(i + 1).last() == v@[i as int]);
        if v[i] == sep {
            let item = string_from_range(v, start, i);
            out.push(item);
            assert(views(out@) =~= done.push(cur));
            start = i + 1;
            assert(v@.subrange(start as int, i + 1) =~= Seq::<char>::empty());
        } else {
            assert(v@.subrange(start as int, i + 1) =~= cur.push(v@[i as int]));
            assert(done.push(cur).update(done.len() as int, cur.push(v@[i as int])) =~= done.push(
                cur.push(v@[i as int]),
            ));
        }
        i = i + 1;
    }
    assert(v@.take(n as int) =~= v@);
    let ghost done = views(out@);
    let item = string_from_range(v, start, n);
    out.push(item);
    assert(views(out@) =~= done.push(v@.subrange(start as int, n as int)));
    out
}

// ---------------------------------------------------------------------------
// Whitespace-separated words
// ---------------------------------------------------------------------------

/// The pieces of `s` between whitespace characters (possibly empty).
pub open spec fn ws_fields(s: Seq<char>) -> Seq<Seq<char>>
    decreases s.len(),
{
    if s.len() == 0 {
        seq![Seq::<char>::empty()]
    } else {
        let r = ws_fields(s.drop_last());
        if is_ws(s.last()) {
            r.push(Seq::<char>::empty())
        } else {
            r.update(r.len() - 1, r.last().push(s.last()))
        }
    }
}

/// The non-empty members of `parts`, in order.
pub open spec fn nonempty(parts: Seq<Seq<char>>) -> Seq<Seq<char>>
    decreases parts.len(),
{
    if parts.len() == 0 {
        Seq::<Seq<char>>::empty()
    } else if parts.last().len() > 0 {
        nonempty(parts.drop_last()).push(parts.last())
    } else {
        nonempty(parts.drop_last())
    }
}

/// The words of `s` (`str::split_whitespace`).
pub open spec fn words(s: Seq<char>) -> Seq<Seq<char>> {
    nonempty(ws_fields(s))
}

/// `parts` joined with `sep` between consecutive members (`join`).
pub open spec fn join_with(parts: Seq<Seq<char>>, sep: Seq<char>) -> Seq<char>
    decreases parts.len(),
{
    if parts.len() == 0 {
        Seq::<char>::empty()
    } else if parts.len() == 1 {
        parts[0]
    } else {
        join_with(parts.drop_last(), sep) + sep + parts.last()
    }
}

/// The words of `s` joined by single spaces
/// (`s.split_whitespace().collect::<Vec<_>>().join(" ")`).
pub open spec fn collapse_ws(s: Seq<char>) -> Seq<char> {
    join_with(words(s), seq![' '])
}

pub proof fn lemma_ws_fields_nonempty(s: Seq<char>)
    ensures
        ws_fields(s).len() >= 1,
    decreases s.len(),
{
    if s.len() > 0 {
        lemma_ws_fields_nonempty(s.drop_last());
    }
}

proof fn lemma_nonempty_push(parts: Seq<Seq<char>>, p: Seq<char>)
    ensures
        nonempty(parts.push(p)) == (if p.len() > 0 {
            nonempty(parts).push(p)
        } else {
            nonempty(parts)
        }),
{
    assert(parts.push(p).drop_last() =~= parts);
}

proof fn lemma_join_push(parts: Seq<Seq<char>>, p: Seq<char>, sep: Seq<char>)
    ensures
        join_with(parts.push(p), sep) == (if parts.len() == 0 {
            p
        } else {
            join_with(parts, sep) + sep + p
        }),
{
    assert(parts.push(p).drop_last() =~= parts);
    if parts.len() == 0 {
        assert(parts.push(p)[0] == p);
    }
}

/// The strings joined with `sep` between them (`parts.join(sep)`).
pub fn join_strings(parts: &Vec<String>, sep: &str) -> (r: String)
    ensures
        r@ == join_with(views(parts@), sep@),
{
    let mut out = String::new();
    let mut i: usize = 0;
    while i < parts.len()
        invariant
            i <= parts@.len(),
            out@ == join_with(views(parts@.take(i as int)), sep@),
        decreases parts@.len() - i,
    {
        proof {
            let before = views(parts@.take(i as int));
            assert(views(parts@.take(i + 1)) =~= before.push(parts@[i as int]@));
            lemma_join_push(before, parts@[i as int]@, sep@);
        }
        if i > 0 {
            out.append(sep);
        }
        out.append(parts[i].as_str());
        i = i + 1;
    }
    assert(parts@.take(parts@.len() as int) =~= parts@);
    out
}

/// The words of `v[..]` joined by single spaces.
pub fn collapse_chars(v: &Vec<char>) -> (r: String)
    ensures
        r@ == collapse_ws(v@),
{
    let n = v.len();
    let mut out = String::new();
    let mut start: usize = 0;
    let mut i: usize = 0;
    let mut nw: usize = 0;
    let ghost mut done: Seq<Seq<char>> = Seq::empty();
    assert(v@.take(0) =~= Seq::<char>::empty());
    assert(done.push(v@.subrange(0, 0)) =~= seq![Seq::<char>::empty()]);
    while i < n
        invariant
            start <= i <= n == v.len(),
            ws_fields(v@.take(i as int)) == done.push(v@.subrange(start as int, i as int)),
            out@ == join_with(nonempty(done), seq![' ']),
            nw == nonempty(done).len(),
            nw <= i,
        decreases n - i,
    {
        let ghost cur = v@.subrange(start as int, i as int);
        assert(v@.take(i + 1).drop_last() =~= v@.take(i as int));
        assert(v@.take(i + 1).last() == v@[i as int]);
        if is_whitespace_char(v[i]) {
            proof {
                lemma_nonempty_push(done, cur);
                lemma_join_push(nonempty(done), cur, seq![' ']);
            }
            if start < i {
                if nw > 0 {
                    push_char(&mut out, ' ');
                }
                append_range(&mut out, v, start, i);
                nw = nw + 1;
            }
            proof {
                done = done.push(cur);
            }
            start = i + 1;
            assert(v@.subrange(start as int, i + 1) =~= Seq::<char>::empty());
        } else {
            assert(v@.subrange(start as int, i + 1) =~= cur.push(v@[i as int]));
            assert(done.push(cur).update(done.len() as int, cur.push(v@[i as int])) =~= done.push(
                cur.push(v@[i as int]),
            ));
        }
        i = i + 1;
    }
    assert(v@.take(n as int) =~= v@);
    let ghost cur = v@.subrange(start as int, n as int);
    proof {
        lemma_nonempty_push(done, cur);
        lemma_join_push(nonempty(done), cur, seq![' ']);
    }
    if start < n {
        if nw > 0 {
            push_char(&mut out, ' ');
        }
        append_range(&mut out, v, start, n);
    }
    out
}

/// The words of `s` (`s.split_whitespace().collect()`).
pub fn split_words(s: &str) -> (r: Vec<String>)
    ensures
        views(r@) == words(s@),
{
    let v = chars_of(s);
    let n = v.len();
    let mut out: Vec<String> = Vec::new();
    let mut start: usize = 0;
    let mut i: usize = 0;
    let ghost mut done: Seq<Seq<char>> = Seq::empty();
    assert(v@.take(0) =~= Seq::<char>::empty());
    assert(done.push(v@.subrange(0, 0)) =~= seq![Seq::<char>::empty()]);
    while i < n
        invariant
            start <= i <= n == v.len(),
            ws_fields(v@.take(i as int)) == done.push(v@.subrange(start as int, i as int)),
            views(out@) == nonempty(done),
        decreases n - i,
    {
        let ghost cur = v@.subrange(start as int, i as int);
        assert(v@.take(i + 1).drop_last() =~= v@.take(i as int));
        assert(v@.take(i + 1).last() == v@[i as int]);
        if is_whitespace_char(v[i]) {
            proof {
                lemma_nonempty_push(done, cur);
            }
            if start < i {
                let w = string_from_range(&v, start, i);
                let ghost before = views(out@);
                out.push(w);
                assert(views(out@) =~= before.push(w@));
            }
            proof {
                done = done.push(cur);
            }
            start = i + 1;
            assert(v@.subrange(start as int, i + 1) =~= Seq::<char>::empty());
        } else {
            assert(v@.subrange(start as int, i + 1) =~= cur.push(v@[i as int]));
            assert(done.push(cur).update(done.len() as int, cur.push(v@[i as int])) =~= done.push(
                cur.push(v@[i as int]),
            ));
        }
        i = i + 1;
    }
    assert(v@.take(n as int) =~= v@);
    let ghost cur = v@.subrange(start as int, n as int);
    proof {
        lemma_nonempty_push(done, cur);
    }
    if start < n {
        let w = string_from_range(&v, start, n);
        let ghost before = views(out@);
        out.push(w);
        assert(views(out@) =~= before.push(w@));
    }
    out
}

/// The words of `s` joined by single spaces.
pub fn collapse_whitespace(s: &str) -> (r: String)
    ensures
        r@ == collapse_ws(s@),
{
    let v = chars_of(s);
    collapse_chars(&v)
}

// ---------------------------------------------------------------------------
// Truncation
// ---------------------------------------------------------------------------

/// `s` with each line feed replaced by a space (`s.replace('\n', " ")`).
pub open spec fn flatten_newlines(s: Seq<char>) -> Seq<char> {
    s.map_values(|c: char| if c == '\n' { ' ' } else { c })
}

/// `max.saturating_sub(3)`.
pub open spec fn keep_before_ellipsis(max: int) -> int {
    if max >= 3 { max - 3 } else { 0 }
}

/// `s` itself when it has at most `max` characters; otherwise its first
/// `max - 3` characters (none when `max < 3`) followed by `...`.
pub open spec fn truncate_ellipsis(s: Seq<char>, max: int) -> Seq<char> {
    if s.len() <= max {
        s
    } else {
        s.take(keep_before_ellipsis(max)) + seq!['.', '.', '.']
    }
}

/// A truncated text never exceeds its limit (of at least 3 characters, the
/// length of the ellipsis), and a text within the limit is kept whole.
pub proof fn truncated_text_fits(s: Seq<char>, max: int)
    ensures
        max >= 3 ==> truncate_ellipsis(s, max).len() <= max,
        s.len() <= max ==> truncate_ellipsis(s, max) == s,
        s.len() > max && max >= 3 ==> truncate_ellipsis(s, max).len() == max,
{
}

/// Whether every character of `s` satisfies `ok`.
pub open spec fn all_chars(s: Seq<char>, ok: spec_fn(char) -> bool) -> bool {
    forall|k: int| 0 <= k < s.len() ==> ok(#[trigger] s[k])
}

proof fn lemma_ws_fields_chars(s: Seq<char>, ok: spec_fn(char) -> bool)
    requires
        all_chars(s, ok),
    ensures
        forall|i: int| 0 <= i < ws_fields(s).len() ==> all_chars(#[trigger] ws_fields(s)[i], ok),
    decreases s.len(),
{
    if s.len() > 0 {
        let init = s.drop_last();
        assert(all_chars(init, ok)) by {
            assert forall|k: int| 0 <= k < init.len() implies ok(#[trigger] init[k]) by {
                assert(init[k] == s[k]);
            }
        }
        lemma_ws_fields_chars(init, ok);
        lemma_ws_fields_nonempty(init);
        let r = ws_fields(init);
        assert(ok(s.last())) by {
            assert(s.last() == s[s.len() - 1]);
        }
        assert forall|i: int| 0 <= i < ws_fields(s).len() implies all_chars(#[trigger] ws_fields(s)[i], ok) by {
            if i < r.len() - 1 {
                assert(ws_fields(s)[i] == r[i]);
            } else if i == r.len() - 1 {
                if is_ws(s.last()) {
                    assert(ws_fields(s)[i] == r[i]);
                } else {
                    let l = r.last().push(s.last());
                    assert(ws_fields(s)[i] == l);
                    assert(all_chars(r[r.len() - 1], ok));
                    assert forall|k: int| 0 <= k < l.len() implies ok(#[trigger] l[k]) by {
                        if k < l.len() - 1 {
                            assert(l[k] == r.last()[k]);
                        }
                    }
                }
            } else {
                assert(ws_fields(s)[i] =~= Seq::<char>::empty());
            }
        }
    }
}

proof fn lemma_nonempty_chars(parts: Seq<Seq<char>>, ok: spec_fn(char) -> bool)
    requires
        forall|i: int| 0 <= i < parts.len() ==> all_chars(#[trigger] parts[i], ok),
    ensures
        forall|i: int| 0 <= i < nonempty(parts).len() ==> all_chars(#[trigger] nonempty(parts)[i], ok),
    decreases parts.len(),
{
    if parts.len() > 0 {
        let init = parts.drop_last();
        assert forall|i: int| 0 <= i < init.len() implies all_chars(#[trigger] init[i], ok) by {
            assert(init[i] == parts[i]);
        }
        lemma_nonempty_chars(init, ok);
        let r = nonempty(init);
        assert(all_chars(parts[parts.len() - 1], ok));
        assert forall|i: int| 0 <= i < nonempty(parts).len() implies all_chars(#[trigger] nonempty(parts)[i], ok) by {
            if i < r.len() {
                assert(nonempty(parts)[i] == r[i]);
            } else {
                assert(nonempty(parts)[i] == parts.last());
            }
        }
    }
}

proof fn lemma_join_chars(parts: Seq<Seq<char>>, sep: Seq<char>, ok: spec_fn(char) -> bool)
    requires
        forall|i: int| 0 <= i < parts.len() ==> all_chars(#[trigger] parts[i], ok),
        all_chars(sep, ok),
    ensures
        all_chars(join_with(parts, sep), ok),
    decreases parts.len(),
{
    if parts.len() == 1 {
        assert(all_chars(parts[0], ok));
    } else if parts.len() > 1 {
        let init = parts.drop_last();
        assert forall|i: int| 0 <= i < init.len() implies all_chars(#[trigger] init[i], ok) by {
            assert(init[i] == parts[i]);
        }
        lemma_join_chars(init, sep, ok);
        let a = join_with(init, sep);
        let l = parts.last();
        assert(all_chars(parts[parts.len() - 1], ok));
        let j = a + sep + l;
        assert forall|k: int| 0 <= k < j.len() implies ok(#[trigger] j[k]) by {
            if k < a.len() {
                assert(j[k] == a[k]);
            } else if k < a.len() + sep.len() {
                assert(j[k] == sep[k - a.len()]);
            } else {
                assert(j[k] == l[k - a.len() - sep.len()]);
            }
        }
    }
}

/// Collapsing whitespace only keeps characters of the text and adds single
/// spaces: whatever holds of every character of the text and of a space
/// holds of every character of the result.
pub proof fn collapse_keeps_char_property(s: Seq<char>, ok: spec_fn(char) -> bool)
    requires
        all_chars(s, ok),
        ok(' '),
    ensures
        all_chars(collapse_ws(s), ok),
{
    lemma_ws_fields_chars(s, ok);
    lemma_nonempty_chars(ws_fields(s), ok);
    assert(all_chars(seq![' '], ok));
    lemma_join_chars(words(s), seq![' '], ok);
}

/// Whether `c` is not whitespace.
pub open spec fn not_ws(c: char) -> bool {
    !is_ws(c)
}

proof fn lemma_ws_fields_no_ws(s: Seq<char>)
    ensures
        forall|i: int| 0 <= i < ws_fields(s).len() ==> all_chars(#[trigger] ws_fields(s)[i], |c: char| not_ws(c)),
    decreases s.len(),
{
    if s.len() > 0 {
        let init = s.drop_last();
        lemma_ws_fields_no_ws(init);
        lemma_ws_fields_nonempty(init);
        let r = ws_fields(init);
        assert forall|i: int| 0 <= i < ws_fields(s).len() implies all_chars(#[trigger] ws_fields(s)[i], |c: char| not_ws(c)) by {
            if i < r.len() - 1 {
                assert(ws_fields(s)[i] == r[i]);
            } else if i == r.len() - 1 {
                if is_ws(s.last()) {
                    assert(ws_fields(s)[i] == r[i]);
                } else {
                    let l = r.last().push(s.last());
                    assert(ws_fields(s)[i] == l);
                    assert(all_chars(r[r.len() - 1], |c: char| not_ws(c)));
                    assert forall|k: int| 0 <= k < l.len() implies not_ws(#[trigger] l[k]) by {
                        if k < l.len() - 1 {
                            assert(l[k] == r[r.len() - 1][k]);
                        }
                    }
                }
            } else {
                assert(ws_fields(s)[i] =~= Seq::<char>::empty());
            }
        }
    }
}

proof fn lemma_nonempty_members(parts: Seq<Seq<char>>)
    ensures
        forall|i: int| 0 <= i < nonempty(parts).len() ==> (#[trigger] nonempty(parts)[i]).len() > 0,
    decreases parts.len(),
{
    if parts.len() > 0 {
        let init = parts.drop_last();
        lemma_nonempty_members(init);
        let r = nonempty(init);
        assert forall|i: int| 0 <= i < nonempty(parts).len() implies (#[trigger] nonempty(
            parts,
        )[i]).len() > 0 by {
            if i < r.len() {
                assert(nonempty(parts)[i] == r[i]);
            } else {
                assert(nonempty(parts)[i] == parts.last());
            }
        }
    }
}

/// The words of a text: non-empty, without whitespace.
proof fn lemma_words_shape(s: Seq<char>)
    ensures
        forall|i: int|
            0 <= i < words(s).len() ==> (#[trigger] words(s)[i]).len() > 0 && all_chars(
                words(s)[i],
                |c: char| not_ws(c),
            ),
{
    lemma_ws_fields_no_ws(s);
    lemma_nonempty_chars(ws_fields(s), |c: char| not_ws(c));
    lemma_nonempty_members(ws_fields(s));
}

proof fn lemma_ws_fields_append_word(a: Seq<char>, b: Seq<char>)
    requires
        all_chars(b, |c: char| not_ws(c)),
    ensures
        ws_fields(a).len() >= 1,
        ws_fields(a + b) == ws_fields(a).update(
            ws_fields(a).len() - 1,
            ws_fields(a).last() + b,
        ),
    decreases b.len(),
{
    lemma_ws_fields_nonempty(a);
    if b.len() == 0 {
        assert(a + b =~= a);
        assert(ws_fields(a).last() + b =~= ws_fields(a).last());
        assert(ws_fields(a).update(ws_fields(a).len() - 1, ws_fields(a).last()) =~= ws_fields(a));
    } else {
        let b0 = b.drop_last();
        assert(all_chars(b0, |c: char| not_ws(c))) by {
            assert forall|k: int| 0 <= k < b0.len() implies not_ws(#[trigger] b0[k]) by {
                assert(b0[k] == b[k]);
            }
        }
        lemma_ws_fields_append_word(a, b0);
        assert((a + b).drop_last() =~= a + b0);
        assert((a + b).last() == b.last());
        assert(not_ws(b[b.len() - 1]));
        let r = ws_fields(a + b0);
        let w = ws_fields(a);
        lemma_ws_fields_nonempty(a + b0);
        assert(ws_fields(a + b) == r.update(r.len() - 1, r.last().push(b.last())));
        assert(r.len() == w.len());
        assert(r.last() == w.last() + b0);
        assert((w.last() + b0).push(b.last()) =~= w.last() + b);
        assert(ws_fields(a + b) =~= ws_fields(a).update(
            ws_fields(a).len() - 1,
            ws_fields(a).last() + b,
        ));
    }
}

proof fn lemma_words_of_join(ws: Seq<Seq<char>>)
    requires
        forall|i: int|
            0 <= i < ws.len() ==> (#[trigger] ws[i]).len() > 0 && all_chars(ws[i], |c: char| not_ws(c)),
    ensures
        words(join_with(ws, seq![' '])) == ws,
    decreases ws.len(),
{
    if ws.len() == 0 {
        assert(ws_fields(Seq::<char>::empty()) == seq![Seq::<char>::empty()]);
        let p = seq![Seq::<char>::empty()];
        assert(p.drop_last() =~= Seq::<Seq<char>>::empty());
        assert(p.last().len() == 0);
        assert(nonempty(p.drop_last()).len() == 0);
        assert(nonempty(p) =~= Seq::<Seq<char>>::empty());
        assert(ws =~= Seq::<Seq<char>>::empty());
    } else {
        let init = ws.drop_last();
        let w = ws.last();
        assert(w == ws[ws.len() - 1]);
        assert forall|i: int|
            0 <= i < init.len() implies (#[trigger] init[i]).len() > 0 && all_chars(init[i], |c: char| not_ws(c)) by {
            assert(init[i] == ws[i]);
        }
        lemma_words_of_join(init);
        assert(ws == init.push(w));
        lemma_join_push(init, w, seq![' ']);
        if init.len() == 0 {
            let e = Seq::<char>::empty();
            lemma_ws_fields_append_word(e, w);
            assert(e + w =~= w);
            assert(ws_fields(e) == seq![e]);
            assert(ws_fields(w) =~= seq![w]);
            assert(seq![w] =~= seq![e].push(w).drop_first());
            assert(nonempty(seq![w]) == nonempty(Seq::<Seq<char>>::empty()).push(w)) by {
                assert(seq![w].drop_last() =~= Seq::<Seq<char>>::empty());
            }
            assert(ws =~= seq![w]);
        } else {
            let j = join_with(init, seq![' ']);
            let js = j + seq![' '];
            assert(js.drop_last() =~= j);
            assert(js.last() == ' ');
            assert(is_ws(' '));
            lemma_ws_fields_nonempty(j);
            assert(ws_fields(js) == ws_fields(j).push(Seq::<char>::empty()));
            lemma_ws_fields_append_word(js, w);
            assert(Seq::<char>::empty() + w =~= w);
            assert(ws_fields(js + w) =~= ws_fields(j).push(w));
            assert(j + seq![' '] + w == js + w);
            lemma_nonempty_push(ws_fields(j), w);
        }
    }
}

/// Collapsing whitespace twice gives what collapsing once gives.
pub proof fn collapse_is_idempotent(s: Seq<char>)
    ensures
        collapse_ws(collapse_ws(s)) == collapse_ws(s),
{
    lemma_words_shape(s);
    lemma_words_of_join(words(s));
}

/// Whether a text has no whitespace at either end and never two whitespace
/// characters in a row.
pub open spec fn single_spaced(t: Seq<char>) -> bool {
    &&& t.len() > 0 ==> !is_ws(t[0]) && !is_ws(t[t.len() - 1])
    &&& forall|i: int| 0 <= i < t.len() - 1 && is_ws(#[trigger] t[i]) ==> !is_ws(t[i + 1])
}

proof fn lemma_join_single_spaced(ws: Seq<Seq<char>>)
    requires
        forall|i: int|
            0 <= i < ws.len() ==> (#[trigger] ws[i]).len() > 0 && all_chars(ws[i], |c: char| not_ws(c)),
    ensures
        single_spaced(join_with(ws, seq![' '])),
        ws.len() > 0 ==> join_with(ws, seq![' ']).len() > 0,
    decreases ws.len(),
{
    if ws.len() == 1 {
        let w = ws[0];
        assert(all_chars(w, |c: char| not_ws(c)));
        assert(not_ws(w[0]) && not_ws(w[w.len() - 1]));
    } else if ws.len() > 1 {
        let init = ws.drop_last();
        let w = ws.last();
        assert(w == ws[ws.len() - 1]);
        assert forall|i: int|
            0 <= i < init.len() implies (#[trigger] init[i]).len() > 0 && all_chars(init[i], |c: char| not_ws(c)) by {
            assert(init[i] == ws[i]);
        }
        lemma_join_single_spaced(init);
        let j = join_with(init, seq![' ']);
        let t = j + seq![' '] + w;
        assert(join_with(ws, seq![' ']) == t);
        assert(not_ws(w[0]) && not_ws(w[w.len() - 1]));
        assert(t[0] == j[0]);
        assert(t[t.len() - 1] == w[w.len() - 1]);
        assert forall|i: int| 0 <= i < t.len() - 1 && is_ws(#[trigger] t[i]) implies !is_ws(t[i + 1]) by {
            if i < j.len() - 1 {
                assert(t[i] == j[i] && t[i + 1] == j[i + 1]);
            } else if i == j.len() - 1 {
                assert(t[i] == j[j.len() - 1]);
            } else if i == j.len() {
                assert(t[i + 1] == w[0]);
            } else {
                assert(t[i] == w[i - j.len() - 1]);
                assert(not_ws(w[i - j.len() - 1]));
            }
        }
    }
}

/// A collapsed text has no whitespace at either end and never two
/// whitespace characters in a row.
pub proof fn collapse_is_single_spaced(s: Seq<char>)
    ensures
        single_spaced(collapse_ws(s)),
{
    lemma_words_shape(s);
    lemma_join_single_spaced(words(s));
}

/// The characters of `v` with each line feed replaced by a space.
pub fn flatten_newline_chars(v: &Vec<char>) -> (r: Vec<char>)
    ensures
        r@ == flatten_newlines(v@),
{
    let mut r: Vec<char> = Vec::new();
    let mut i: usize = 0;
    while i < v.len()
        invariant
            i <= v.len(),
            r@ == flatten_newlines(v@.take(i as int)),
        decreases v.len() - i,
    {
        let c = if v[i] == '\n' { ' ' } else { v[i] };
        r.push(c);
        assert(flatten_newlines(v@.take(i + 1)) =~= flatten_newlines(v@.take(i as int)).push(c));
        i = i + 1;
    }
    assert(v@.take(v.len() as int) =~= v@);
    r
}

/// `v` truncated to `max` characters with a trailing `...` marker.
pub fn truncate_chars_with_ellipsis(v: &Vec<char>, max: usize) -> (r: String)
    ensures
        r@ == truncate_ellipsis(v@, max as int),
{
    if v.len() <= max {
        string_from_range(v, 0, v.len())
    } else {
        let keep = if max >= 3 { max - 3 } else { 0 };
        let mut r = string_from_range(v, 0, keep);
        push_char(&mut r, '.');
        push_char(&mut r, '.');
        push_char(&mut r, '.');
        assert(v@.subrange(0, keep as int) =~= v@.take(keep as int));
        assert(r@ =~= v@.take(keep as int) + seq!['.', '.', '.']);
        assert(v@.subrange(0, v.len() as int) =~= v@);
        r
    }
}


// ---------------------------------------------------------------------------
// Searching
// ---------------------------------------------------------------------------

/// The index of the first occurrence of `c` in `s`, if any.
pub open spec fn index_of(s: Seq<char>, c: char) -> Option<int>
    decreases s.len(),
{
    if s.len() == 0 {
        None
    } else if s[0] == c {
        Some(0)
    } else {
        match index_of(s.drop_first(), c) {
            Some(i) => Some(i + 1),
            None => None,
        }
    }
}

pub proof fn lemma_index_of_found(s: Seq<char>, c: char, i: int)
    requires
        0 <= i < s.len(),
        s[i] == c,
        forall|j: int| 0 <= j < i ==> s[j] != c,
    ensures
        index_of(s, c) == Some(i),
    decreases i,
{
    if i > 0 {
        lemma_index_of_found(s.drop_first(), c, i - 1);
    }
}

/// A character that occurs in `s` has an index.
pub proof fn lemma_index_of_occurs(s: Seq<char>, c: char, i: int)
    requires
        0 <= i < s.len(),
        s[i] == c,
    ensures
        index_of(s, c) is Some,
    decreases i,
{
    if i > 0 && s[0] != c {
        lemma_index_of_occurs(s.drop_first(), c, i - 1);
    }
}

pub proof fn lemma_index_of_absent(s: Seq<char>, c: char)
    requires
        forall|j: int| 0 <= j < s.len() ==> s[j] != c,
    ensures
        index_of(s, c) is None,
    decreases s.len(),
{
    if s.len() > 0 {
        lemma_index_of_absent(s.drop_first(), c);
    }
}

pub proof fn lemma_index_of_bounds(s: Seq<char>, c: char)
    ensures
        index_of(s, c) matches Some(i) ==> 0 <= i < s.len() && s[i] == c && forall|j: int|
            0 <= j < i ==> s[j] != c,
    decreases s.len(),
{
    if s.len() > 0 && s[0] != c {
        let t = s.drop_first();
        lemma_index_of_bounds(t, c);
        if let Some(i) = index_of(t, c) {
            assert forall|j: int| 0 <= j < i + 1 implies s[j] != c by {
                if j > 0 {
                    assert(s[j] == t[j - 1]);
                }
            }
        }
    }
}

/// The index of the first `c` in `v`.
pub fn find_char(v: &Vec<char>, c: char) -> (r: Option<usize>)
    ensures
        match r {
            Some(i) => index_of(v@, c) == Some(i as int),
            None => index_of(v@, c) is None,
        },
{
    let mut i: usize = 0;
    while i < v.len()
        invariant
            i <= v.len(),
            forall|j: int| 0 <= j < i ==> v@[j] != c,
        decreases v.len() - i,
    {
        if v[i] == c {
            proof {
                lemma_index_of_found(v@, c, i as int);
            }
            return Some(i);
        }
        i = i + 1;
    }
    proof {
        lemma_index_of_absent(v@, c);
    }
    None
}

/// Whether `needle` occurs in `hay` starting at index `i`.
pub open spec fn occurs_at(hay: Seq<char>, needle: Seq<char>, i: int) -> bool {
    0 <= i && i + needle.len() <= hay.len() && hay.subrange(i, i + needle.len()) == needle
}

/// Whether `needle` occurs somewhere in `hay` (`str::contains`).
pub open spec fn has_infix(hay: Seq<char>, needle: Seq<char>) -> bool {
    exists|i: int| occurs_at(hay, needle, i)
}

/// `hay.contains(needle)`.
pub fn contains_text(hay: &str, needle: &str) -> (b: bool)
    ensures
        b == has_infix(hay@, needle@),
{
    let h = chars_of(hay);
    let n = chars_of(needle);
    if n.len() > h.len() {
        return false;
    }
    let last = h.len() - n.len();
    let mut i: usize = 0;
    while i <= last
        invariant
            last == h.len() - n.len(),
            n.len() <= h.len(),
            i <= last + 1,
            h@ == hay@,
            n@ == needle@,
            forall|j: int| 0 <= j < i ==> !occurs_at(h@, n@, j),
        decreases last + 1 - i,
    {
        let mut k: usize = 0;
        while k < n.len() && h[i + k] == n[k]
            invariant
                i <= last,
                last == h.len() - n.len(),
                k <= n.len(),
                forall|m: int| 0 <= m < k ==> h@[i + m] == n@[m],
            decreases n.len() - k,
        {
            k = k + 1;
        }
        if k == n.len() {
            assert(h@.subrange(i as int, i + n.len()) =~= n@);
            assert(occurs_at(h@, n@, i as int));
            return true;
        }
        assert(h@.subrange(i as int, i + n.len())[k as int] != n@[k as int]);
        i = i + 1;
    }
    false
}

/// The first line of `s` (`s.lines().next().unwrap_or_default()`): the text
/// before the first line feed, without a carriage return that ends it.
pub open spec fn first_line(s: Seq<char>) -> Seq<char> {
    match index_of(s, '\n') {
        Some(k) => if k > 0 && s[k - 1] == '\r' {
            s.take(k - 1)
        } else {
            s.take(k)
        },
        None => s,
    }
}

pub fn first_line_of(s: &str) -> (r: String)
    ensures
        r@ == first_line(s@),
{
    let v = chars_of(s);
    match find_char(&v, '\n') {
        Some(k) => {
            proof {
                lemma_index_of_bounds(v@, '\n');
            }
            let end = if k > 0 && v[k - 1] == '\r' {
                k - 1
            } else {
                k
            };
            let r = string_from_range(&v, 0, end);
            assert(v@.subrange(0, end as int) =~= v@.take(end as int));
            r
        },
        None => string_from_range(&v, 0, v.len()),
    }
}

// ---------------------------------------------------------------------------
// Decimal numbers
// ---------------------------------------------------------------------------

/// The decimal digit character for `d` (for `d < 10`).
pub open spec fn digit_char(d: int) -> char {
    if d == 0 {
        '0'
    } else if d == 1 {
        '1'
    } else if d == 2 {
        '2'
    } else if d == 3 {
        '3'
    } else if d == 4 {
        '4'
    } else if d == 5 {
        '5'
    } else if d == 6 {
        '6'
    } else if d == 7 {
        '7'
    } else if d == 8 {
        '8'
    } else {
        '9'
    }
}

/// The value of a decimal digit character (for `'0' <= c <= '9'`).
pub open spec fn digit_value(c: char) -> int {
    c as int - '0' as int
}

pub open spec fn is_digit(c: char) -> bool {
    '0' <= c && c <= '9'
}

/// The decimal representation of `n` without leading zeros.
pub open spec fn dec(n: nat) -> Seq<char>
    decreases n,
{
    if n < 10 {
        seq![digit_char(n as int)]
    } else {
        dec(n / 10).push(digit_char((n % 10) as int))
    }
}

/// The decimal representation of `n`, with a leading `-` when negative
/// (`n.to_string()` for an integer).
pub open spec fn int_text(n: int) -> Seq<char> {
    if n < 0 {
        seq!['-'] + dec((-n) as nat)
    } else {
        dec(n as nat)
    }
}

fn digit(d: u64) -> (c: char)
    requires
        d < 10,
    ensures
        c == digit_char(d as int),
{
    match d {
        0 => '0',
        1 => '1',
        2 => '2',
        3 => '3',
        4 => '4',
        5 => '5',
        6 => '6',
        7 => '7',
        8 => '8',
        _ => '9',
    }
}

/// The decimal representation of `n`.
pub fn u64_text(n: u64) -> (r: String)
    ensures
        r@ == dec(n as nat),
    decreases n,
{
    if n < 10 {
        let mut r = String::new();
        push_char(&mut r, digit(n));
        assert(r@ =~= seq![digit_char(n as int)]);
        r
    } else {
        let mut r = u64_text(n / 10);
        push_char(&mut r, digit(n % 10));
        r
    }
}

/// The decimal representation of `n`, signed.
pub fn i64_text(n: i64) -> (r: String)
    ensures
        r@ == int_text(n as int),
{
    if n < 0 {
        let m: u64 = (-(n as i128)) as u64;
        let mut r = String::new();
        push_char(&mut r, '-');
        let d = u64_text(m);
        r.append(d.as_str());
        assert(r@ =~= seq!['-'] + dec((-n) as nat));
        r
    } else {
        u64_text(n as u64)
    }
}

/// The value of the decimal digits `s`.
pub open spec fn digits_value(s: Seq<char>) -> int
    decreases s.len(),
{
    if s.len() == 0 {
        0
    } else {
        10 * digits_value(s.drop_last()) + digit_value(s.last())
    }
}

/// Whether `s` is one or more decimal digits.
pub open spec fn all_digits(s: Seq<char>) -> bool {
    s.len() > 0 && forall|i: int| 0 <= i < s.len() ==> is_digit(#[trigger] s[i])
}

/// The integer that `s` spells (an optional `+` or `-` sign followed by one
/// or more decimal digits), if any; no bound on its size.
pub open spec fn int_literal(s: Seq<char>) -> Option<int> {
    if s.len() > 0 && (s[0] == '+' || s[0] == '-') {
        if all_digits(s.drop_first()) {
            if s[0] == '-' {
                Some(-digits_value(s.drop_first()))
            } else {
                Some(digits_value(s.drop_first()))
            }
        } else {
            None
        }
    } else if all_digits(s) {
        Some(digits_value(s))
    } else {
        None
    }
}

/// `s.parse::<i32>()`: the integer `s` spells when it fits in `i32`.
pub open spec fn parse_i32_spec(s: Seq<char>) -> Option<i32> {
    match int_literal(s) {
        Some(n) => if i32::MIN <= n <= i32::MAX {
            Some(n as i32)
        } else {
            None
        },
        None => None,
    }
}

proof fn lemma_digits_value_nonneg(s: Seq<char>)
    requires
        forall|i: int| 0 <= i < s.len() ==> is_digit(#[trigger] s[i]),
    ensures
        digits_value(s) >= 0,
    decreases s.len(),
{
    if s.len() > 0 {
        lemma_digits_value_nonneg(s.drop_last());
    }
}

proof fn lemma_digits_value_grows(s: Seq<char>, t: Seq<char>)
    requires
        forall|i: int| 0 <= i < t.len() ==> is_digit(#[trigger] t[i]),
        forall|i: int| 0 <= i < s.len() ==> is_digit(#[trigger] s[i]),
    ensures
        digits_value(s + t) >= digits_value(s),
    decreases t.len(),
{
    if t.len() > 0 {
        assert((s + t).drop_last() =~= s + t.drop_last());
        lemma_digits_value_grows(s, t.drop_last());
        lemma_digits_value_nonneg(s + t.drop_last());
    } else {
        assert(s + t =~= s);
    }
}

/// The value of the digits `v[lo..hi]`, capped: `None` when it exceeds
/// `2^31`.
fn digits_value_capped(v: &Vec<char>, lo: usize, hi: usize) -> (r: Option<i64>)
    requires
        lo <= hi <= v.len(),
        forall|i: int| lo <= i < hi ==> is_digit(#[trigger] v@[i]),
    ensures
        match r {
            Some(x) => x == digits_value(v@.subrange(lo as int, hi as int)) && x <= 0x8000_0000,
            None => digits_value(v@.subrange(lo as int, hi as int)) > 0x8000_0000,
        },
{
    let mut acc: i64 = 0;
    let mut i = lo;
    while i < hi
        invariant
            lo <= i <= hi <= v.len(),
            forall|k: int| lo <= k < hi ==> is_digit(#[trigger] v@[k]),
            acc == digits_value(v@.subrange(lo as int, i as int)),
            0 <= acc <= 0x8000_0000,
        decreases hi - i,
    {
        let d = (v[i] as u32 - '0' as u32) as i64;
        assert(v@.subrange(lo as int, i + 1).drop_last() =~= v@.subrange(lo as int, i as int));
        let next = acc * 10 + d;
        if next > 0x8000_0000 {
            proof {
                let a = v@.subrange(lo as int, i + 1);
                let b = v@.subrange(i + 1, hi as int);
                assert(a + b =~= v@.subrange(lo as int, hi as int));
                lemma_digits_value_grows(a, b);
            }
            return None;
        }
        acc = next;
        i = i + 1;
    }
    Some(acc)
}

/// `s.parse::<i32>()`.
pub fn parse_i32(s: &str) -> (r: Option<i32>)
    ensures
        r == parse_i32_spec(s@),
{
    let v = chars_of(s);
    let n = v.len();
    if n == 0 {
        return None;
    }
    let signed = v[0] == '+' || v[0] == '-';
    let start: usize = if signed { 1 } else { 0 };
    if start == n {
        assert(v@.drop_first().len() == 0);
        return None;
    }
    let ghost digits = v@.subrange(start as int, n as int);
    proof {
        if signed {
            assert(v@.drop_first() =~= digits);
        } else {
            assert(v@ =~= digits);
        }
    }
    let mut i = start;
    while i < n
        invariant
            start <= i <= n == v.len(),
            digits == v@.subrange(start as int, n as int),
            v@ == s@,
            n > 0,
            signed == (v@[0] == '+' || v@[0] == '-'),
            signed ==> v@.drop_first() == digits,
            !signed ==> v@ == digits,
            forall|k: int| start <= k < i ==> is_digit(#[trigger] v@[k]),
        decreases n - i,
    {
        if !('0' <= v[i] && v[i] <= '9') {
            assert(digits[i - start] == v@[i as int]);
            assert(!all_digits(digits));
            return None;
        }
        i = i + 1;
    }
    assert forall|k: int| 0 <= k < digits.len() implies is_digit(#[trigger] digits[k]) by {
        assert(digits[k] == v@[k + start]);
    }
    assert(all_digits(digits));
    proof {
        lemma_digits_value_nonneg(digits);
    }
    match digits_value_capped(&v, start, n) {
        Some(x) => {
            if v[0] == '-' {
                Some((-x) as i32)
            } else if x <= 0x7fff_ffff {
                Some(x as i32)
            } else {
                None
            }
        },
        None => None,
    }
}

// ---------------------------------------------------------------------------
// Letter case
// ---------------------------------------------------------------------------

/// `c` with ASCII upper-case letters mapped to lower case.
pub open spec fn ascii_lower_char(c: char) -> char {
    if 'A' <= c && c <= 'Z' {
        ((c as int) + 32) as char
    } else {
        c
    }
}

/// `s.to_ascii_lowercase()`.
pub open spec fn ascii_lower(s: Seq<char>) -> Seq<char> {
    s.map_values(|c: char| ascii_lower_char(c))
}

/// `c.to_ascii_uppercase()`.
pub open spec fn ascii_upper_char(c: char) -> char {
    if 'a' <= c && c <= 'z' {
        ((c as int) - 32) as char
    } else {
        c
    }
}

/// `s.to_ascii_uppercase()`.
pub open spec fn ascii_upper(s: Seq<char>) -> Seq<char> {
    s.map_values(|c: char| ascii_upper_char(c))
}

/// Whether every character of `s` is ASCII.
pub open spec fn is_ascii_text(s: Seq<char>) -> bool {
    forall|k: int| 0 <= k < s.len() ==> (#[trigger] s[k]) <= '\u{7f}'
}

fn lower_char(c: char) -> (r: char)
    ensures
        r == ascii_lower_char(c),
{
    if 'A' <= c && c <= 'Z' {
        ((c as u8) + 32) as char
    } else {
        c
    }
}

/// `s.to_ascii_lowercase()`.
pub fn to_ascii_lower(s: &str) -> (r: String)
    ensures
        r@ == ascii_lower(s@),
{
    let v = chars_of(s);
    let mut r = String::new();
    let mut i: usize = 0;
    while i < v.len()
        invariant
            i <= v.len(),
            v@ == s@,
            r@ == ascii_lower(v@.take(i as int)),
        decreases v.len() - i,
    {
        let c = lower_char(v[i]);
        push_char(&mut r, c);
        assert(ascii_lower(v@.take(i + 1)) =~= ascii_lower(v@.take(i as int)).push(c));
        i = i + 1;
    }
    assert(v@.take(v.len() as int) =~= v@);
    r
}

/// What `str::to_uppercase` returns for the given characters: the
/// upper-case mapping of the Unicode Character Database, which may change
/// the length of the text.
pub uninterp spec fn unicode_upper(s: Seq<char>) -> Seq<char>;

/// `str::to_uppercase`. Trusted: the result is named `unicode_upper` of the
/// argument; for ASCII text it is the ASCII upper case (the Unicode case
/// mapping of an ASCII letter is its ASCII counterpart, and other ASCII
/// characters map to themselves).
#[verifier::external_body]
pub(crate) fn to_upper(s: &str) -> (r: String)
    ensures
        r@ == unicode_upper(s@),
        is_ascii_text(s@) ==> r@ == ascii_upper(s@),
{
    s.to_uppercase()
}

/// What `str::to_lowercase` returns for the given characters: the
/// lower-case mapping of the Unicode Character Database.
pub uninterp spec fn unicode_lower(s: Seq<char>) -> Seq<char>;

/// `str::to_lowercase`. Trusted: the result is named `unicode_lower` of the
/// argument; for ASCII text it is the ASCII lower case.
#[verifier::external_body]
pub(crate) fn to_lower(s: &str) -> (r: String)
    ensures
        r@ == unicode_lower(s@),
        is_ascii_text(s@) ==> r@ == ascii_lower(s@),
{
    s.to_lowercase()
}

/// What `format!("{:?}", s)` renders for a string slice: `s` in double
/// quotes with `char::escape_debug` applied to its characters.
pub uninterp spec fn debug_quoted(s: Seq<char>) -> Seq<char>;

/// `format!("{:?}", s)` for a string slice. Trusted: the result is named
/// `debug_quoted` of the argument.
#[verifier::external_body]
pub(crate) fn debug_quote(s: &str) -> (r: String)
    ensures
        r@ == debug_quoted(s@),
{
    format!("{:?}", s)
}

} // verus!
