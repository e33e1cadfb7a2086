//! Self-diagnosis results: kinds and visibility settings.

use vstd::prelude::*;
use crate::json::{json_object_of, json_object_value, is_json, json_error_text, json_object, json_valid, object_value, parse_error, parse_object};
use crate::text::{chars_of, find_char, index_of, lemma_index_of_bounds, owned, str_eq, string_from_range, views};

verus! {

/// Diagnosis kind (`domain/models/diagnosis`). `GoalStyle`/`Values` require a
/// `type_code`; `CoreValues`/`MasterPlan` are free-form markdown results.
#[derive(Clone, Copy, Debug, PartialEq, Eq)]
pub enum DiagnosisKind {
    GoalStyle,
    Values,
    CoreValues,
    MasterPlan,
}

#[derive(Debug)]
pub enum DiagnosisCommands {
    /// Save (or append) a diagnosis result for yourself
    Save {
        /// Diagnosis kind
        kind: DiagnosisKind,
        /// Schema version tag for the result payload (max 20 chars)
        schema_version: String,
        /// Result payload as a JSON object (inline string)
        result: Option<String>,
        /// Read the result JSON object from a file. Use '-' to read stdin.
        result_file: Option<String>,
        /// Output as JSON
        json: bool,
    },
    /// List your latest diagnosis result per kind
    List {
        /// Output as JSON
        json: bool,
    },
    /// Get your full diagnosis result for one kind
    Get {
        /// Diagnosis kind
        kind: DiagnosisKind,
        /// Output as JSON
        json: bool,
    },
    /// Show anonymous aggregate stats for a diagnosis kind (no auth required)
    Stats {
        /// Diagnosis kind (only goal-style/values support aggregate stats)
        kind: DiagnosisKind,
        /// Output as JSON
        json: bool,
    },
    /// Manage which diagnosis kinds are visible to other org members
    Visibility {
        command: VisibilityCommands,
    },
    /// List diagnosis profiles for multiple org members
    Profiles {
        /// Organization ID (uses default if not specified)
        org: Option<String>,
        /// Member ID (repeatable)
        member_ids: Vec<String>,
        /// Output as JSON
        json: bool,
    },
    /// Get one org member's diagnosis profile
    Profile {
        /// Organization ID (uses default if not specified)
        org: Option<String>,
        /// Member ID
        member_id: String,
        /// Output as JSON
        json: bool,
    },
}

#[derive(Debug)]
pub enum VisibilityCommands {
    /// Show your current diagnosis visibility settings
    Get {
        /// Organization ID (uses default if not specified)
        org: Option<String>,
        /// Output as JSON
        json: bool,
    },
    /// Set diagnosis visibility for one or more kinds
    SetValue {
        /// Organization ID (uses default if not specified)
        org: Option<String>,
        /// `<kind>=<true|false>` pair, repeatable (e.g. --visibility goal_style=true)
        visibilities: Vec<String>,
        /// Output as JSON
        json: bool,
    },
}

impl DiagnosisKind {
    /// The value the backend expects.
    pub open spec fn backend_value(self) -> Seq<char> {
        match self {
            DiagnosisKind::GoalStyle => "goal_style"@,
            DiagnosisKind::Values => "values"@,
            DiagnosisKind::CoreValues => "core_values"@,
            DiagnosisKind::MasterPlan => "master_plan"@,
        }
    }

    pub fn as_str(self) -> (r: &'static str)
        ensures
            r@ == self.backend_value(),
    {
        match self {
            DiagnosisKind::GoalStyle => "goal_style",
            DiagnosisKind::Values => "values",
            DiagnosisKind::CoreValues => "core_values",
            DiagnosisKind::MasterPlan => "master_plan",
        }
    }
}

impl DiagnosisKind {
    /// Only the typed kinds (`goal_style`, `values`) accept anonymous-stats
    /// aggregation.
    pub fn supports_stats(self) -> (r: bool)
        ensures
            r == (self == DiagnosisKind::GoalStyle || self == DiagnosisKind::Values),
    {
        match self {
            DiagnosisKind::GoalStyle | DiagnosisKind::Values => true,
            _ => false,
        }
    }
}

/// Aggregate stats are only kept for the typed kinds.
pub fn ensure_stats_supported(kind: DiagnosisKind) -> (r: Result<(), String>)
    ensures
        r is Ok <==> (kind == DiagnosisKind::GoalStyle || kind == DiagnosisKind::Values),
        r matches Err(e) ==> e@ == "--kind "@ + kind.backend_value()
            + " does not support aggregate stats (only goal-style/values do)"@,
{
    if !kind.supports_stats() {
        let mut e = owned("--kind ");
        e.append(kind.as_str());
        e.append(" does not support aggregate stats (only goal-style/values do)");
        return Err(e);
    }
    Ok(())
}

/// Visibility flags keyed by diagnosis kind; a later entry for a kind
/// replaces an earlier one.
#[derive(Debug)]
pub struct VisibilityMap {
    entries: Vec<(String, bool)>,
}

/// The map that `entries` describe, later entries winning.
pub open spec fn entries_map(entries: Seq<(String, bool)>) -> Map<Seq<char>, bool>
    decreases entries.len(),
{
    if entries.len() == 0 {
        Map::empty()
    } else {
        entries_map(entries.drop_last()).insert(entries.last().0@, entries.last().1)
    }
}

/// Whether no kind occurs twice among the entries.
pub open spec fn distinct_entry_keys(entries: Seq<(String, bool)>) -> bool {
    forall|a: int, b: int|
        0 <= a < b < entries.len() ==> (#[trigger] entries[a]).0@ != (#[trigger] entries[b]).0@
}

proof fn lemma_entries_update(entries: Seq<(String, bool)>, j: int, kind: String, visible: bool)
    requires
        distinct_entry_keys(entries),
        0 <= j < entries.len(),
        entries[j].0@ == kind@,
    ensures
        entries_map(entries.update(j, (kind, visible))) == entries_map(entries).insert(kind@, visible),
    decreases entries.len(),
{
    let u = entries.update(j, (kind, visible));
    if j == entries.len() - 1 {
        assert(u.drop_last() =~= entries.drop_last());
        assert(entries_map(u) =~= entries_map(entries).insert(kind@, visible));
    } else {
        let d = entries.drop_last();
        assert(u.drop_last() =~= d.update(j, (kind, visible)));
        assert(distinct_entry_keys(d)) by {
            assert forall|a: int, b: int| 0 <= a < b < d.len() implies (#[trigger] d[a]).0@
                != (#[trigger] d[b]).0@ by {
                assert(d[a] == entries[a] && d[b] == entries[b]);
            }
        }
        lemma_entries_update(d, j, kind, visible);
        assert(entries.last().0@ != kind@) by {
            assert(entries[j].0@ != entries[entries.len() - 1].0@);
        }
        assert(u.last() == entries.last());
        assert(entries_map(u) =~= entries_map(entries).insert(kind@, visible));
    }
}

impl View for VisibilityMap {
    type V = Map<Seq<char>, bool>;

    closed spec fn view(&self) -> Map<Seq<char>, bool> {
        entries_map(self.entries@)
    }
}

proof fn lemma_entries_map_skip(entries: Seq<(String, bool)>, k: Seq<char>, i: int)
    requires
        0 <= i <= entries.len(),
        forall|j: int| i <= j < entries.len() ==> (#[trigger] entries[j]).0@ != k,
    ensures
        entries_map(entries).contains_key(k) == entries_map(entries.take(i)).contains_key(k),
        entries_map(entries).contains_key(k) ==> entries_map(entries)[k] == entries_map(
            entries.take(i),
        )[k],
    decreases entries.len() - i,
{
    if i < entries.len() {
        lemma_entries_map_skip(entries.drop_last(), k, i);
        assert(entries.drop_last().take(i) =~= entries.take(i));
    } else {
        assert(entries.take(i) =~= entries);
    }
}

impl VisibilityMap {
    pub fn new() -> (r: Self)
        ensures
            r@ == Map::<Seq<char>, bool>::empty(),
    {
        VisibilityMap { entries: Vec::new() }
    }

    #[verifier::type_invariant]
    spec fn keys_distinct(self) -> bool {
        distinct_entry_keys(self.entries@)
    }

    /// Sets the flag for `kind`, replacing the one set before.
    pub fn insert(&mut self, kind: String, visible: bool)
        ensures
            final(self)@ == old(self)@.insert(kind@, visible),
    {
        proof {
            use_type_invariant(&*self);
        }
        let ghost before = self.entries@;
        let mut entries: Vec<(String, bool)> = Vec::new();
        std::mem::swap(&mut entries, &mut self.entries);
        let mut j: usize = 0;
        while j < entries.len()
            invariant
                before == entries@,
                before == old(self).entries@,
                distinct_entry_keys(before),
                j <= before.len(),
                forall|k: int| 0 <= k < j ==> (#[trigger] before[k]).0@ != kind@,
            decreases before.len() - j,
        {
            if crate::text::str_eq(entries[j].0.as_str(), kind.as_str()) {
                proof {
                    lemma_entries_update(before, j as int, kind, visible);
                    assert forall|a: int, b: int|
                        0 <= a < b < before.len() implies (#[trigger] before.update(
                            j as int,
                            (kind, visible),
                        )[a]).0@ != (#[trigger] before.update(j as int, (kind, visible))[b]).0@ by {}
                }
                let ghost k = kind;
                entries.set(j, (kind, visible));
                assert(entries@ =~= before.update(j as int, (k, visible)));
                self.entries = entries;
                assert(entries_map(self.entries@) == entries_map(before).insert(k@, visible));
                return;
            }
            j = j + 1;
        }
        entries.push((kind, visible));
        assert(entries@.drop_last() =~= before);
        assert forall|a: int, b: int|
            0 <= a < b < entries@.len() implies (#[trigger] entries@[a]).0@
            != (#[trigger] entries@[b]).0@ by {
            if b == before.len() {
                assert(entries@[a] == before[a]);
            }
        }
        self.entries = entries;
    }

    /// The flag for `kind`, if one is set.
    pub fn get(&self, kind: &str) -> (r: Option<&bool>)
        ensures
            match r {
                Some(b) => self@.contains_key(kind@) && self@[kind@] == *b,
                None => !self@.contains_key(kind@),
            },
    {
        let mut i = self.entries.len();
        while i > 0
            invariant
                i <= self.entries.len(),
                forall|j: int| i <= j < self.entries.len() ==> (#[trigger] self.entries@[j]).0@ != kind@,
            decreases i,
        {
            if crate::text::str_eq(self.entries[i - 1].0.as_str(), kind) {
                proof {
                    lemma_entries_map_skip(self.entries@, kind@, i as int);
                    assert(self.entries@.take(i as int).drop_last() =~= self.entries@.take(i - 1));
                }
                return Some(&self.entries[i - 1].1);
            }
            i = i - 1;
        }
        proof {
            lemma_entries_map_skip(self.entries@, kind@, 0);
        }
        None
    }

    /// The entries, one per kind, in the order the kinds were first set.
    pub fn entries(&self) -> (r: &Vec<(String, bool)>)
        ensures
            entries_map(r@) == self@,
            distinct_entry_keys(r@),
    {
        proof {
            use_type_invariant(self);
        }
        &self.entries
    }
}

/// The parts of `p` before and after its first `=` (`str::split_once`).
pub open spec fn split_once_eq(p: Seq<char>) -> Option<(Seq<char>, Seq<char>)> {
    match index_of(p, '=') {
        Some(k) => Some((p.take(k), p.skip(k + 1))),
        None => None,
    }
}

/// `s.parse::<bool>()`.
pub open spec fn bool_text(s: Seq<char>) -> Option<bool> {
    if s == "true"@ {
        Some(true)
    } else if s == "false"@ {
        Some(false)
    } else {
        None
    }
}

/// One `<kind>=<true|false>` pair, or the error it gives.
pub open spec fn visibility_entry(p: Seq<char>) -> Result<(Seq<char>, bool), Seq<char>> {
    match split_once_eq(p) {
        None => Err("--visibility must be in `<kind>=<true|false>` form, got '"@ + p + "'"@),
        Some((k, v)) => match bool_text(v) {
            Some(b) => Ok((k, b)),
            None => Err("--visibility value must be true or false: '"@ + p + "'"@),
        },
    }
}

/// The map the pairs give, or the error of the first pair that is not of
/// the `<kind>=<true|false>` form.
pub open spec fn visibility_spec(pairs: Seq<Seq<char>>) -> Result<Map<Seq<char>, bool>, Seq<char>>
    decreases pairs.len(),
{
    if pairs.len() == 0 {
        Ok(Map::empty())
    } else {
        match visibility_spec(pairs.drop_last()) {
            Err(e) => Err(e),
            Ok(m) => match visibility_entry(pairs.last()) {
                Err(e) => Err(e),
                Ok((k, b)) => Ok(m.insert(k, b)),
            },
        }
    }
}

fn parse_visibility_pair(pair: &str) -> (r: Result<(String, bool), String>)
    ensures
        match visibility_entry(pair@) {
            Ok((k, b)) => r matches Ok((x, y)) && x@ == k && y == b,
            Err(e) => r matches Err(x) && x@ == e,
        },
{
    let v = chars_of(pair);
    match find_char(&v, '=') {
        None => {
            let mut e = owned("--visibility must be in `<kind>=<true|false>` form, got '");
            e.append(pair);
            e.append("'");
            Err(e)
        },
        Some(k) => {
            proof {
                lemma_index_of_bounds(v@, '=');
            }
            let kind = string_from_range(&v, 0, k);
            let value = string_from_range(&v, k + 1, v.len());
            assert(v@.subrange(0, k as int) =~= v@.take(k as int));
            assert(v@.subrange(k + 1, v.len() as int) =~= v@.skip(k + 1));
            if str_eq(value.as_str(), "true") {
                Ok((kind, true))
            } else if str_eq(value.as_str(), "false") {
                Ok((kind, false))
            } else {
                let mut e = owned("--visibility value must be true or false: '");
                e.append(pair);
                e.append("'");
                Err(e)
            }
        },
    }
}

/// Parses `<kind>=<true|false>` pairs into the visibility map sent to the
/// backend; fails on the first malformed pair.
pub fn parse_visibility_pairs(pairs: &[String]) -> (r: Result<VisibilityMap, String>)
    ensures
        match visibility_spec(views(pairs@)) {
            Ok(m) => r matches Ok(x) && x@ == m,
            Err(e) => r matches Err(x) && x@ == e,
        },
{
    let mut map = VisibilityMap::new();
    let mut i: usize = 0;
    while i < pairs.len()
        invariant
            i <= pairs.len(),
            visibility_spec(views(pairs@.take(i as int))) == Ok::<Map<Seq<char>, bool>, Seq<char>>(map@),
        decreases pairs.len() - i,
    {
        assert(views(pairs@.take(i + 1)).drop_last() =~= views(pairs@.take(i as int)));
        assert(views(pairs@.take(i + 1)).last() == pairs@[i as int]@);
        match parse_visibility_pair(pairs[i].as_str()) {
            Ok((kind, value)) => {
                map.insert(kind, value);
            },
            Err(e) => {
                proof {
                    assert(views(pairs@).take(i as int) =~= views(pairs@.take(i as int)));
                    assert(views(pairs@)[i as int] == pairs@[i as int]@);
                    lemma_visibility_error_sticks(views(pairs@), i as int);
                }
                return Err(e);
            },
        }
        i = i + 1;
    }
    assert(pairs@.take(pairs.len() as int) =~= pairs@);
    Ok(map)
}

proof fn lemma_visibility_error_sticks(pairs: Seq<Seq<char>>, i: int)
    requires
        0 <= i < pairs.len(),
        visibility_spec(pairs.take(i)) is Ok,
        visibility_entry(pairs[i]) is Err,
    ensures
        visibility_spec(pairs) == Err::<Map<Seq<char>, bool>, Seq<char>>(visibility_entry(pairs[i])->Err_0),
    decreases pairs.len() - i,
{
    if i + 1 < pairs.len() {
        assert(pairs.drop_last().take(i) =~= pairs.take(i));
        lemma_visibility_error_sticks(pairs.drop_last(), i);
    } else {
        assert(pairs.drop_last() =~= pairs.take(i));
    }
}

/// Where `diagnosis save --result/--result-file` reads its payload from.
#[derive(Debug)]
pub enum ResultSource {
    /// The text given inline.
    Inline(String),
    /// Standard input (`--result-file -`).
    Stdin,
    /// The file at this path.
    File(String),
}

/// Exactly one of `--result` and `--result-file` must be given; `-` as the
/// file means standard input.
pub fn result_source(inline: Option<&String>, file: Option<&String>) -> (r: Result<ResultSource, String>)
    ensures
        match (inline, file) {
            (Some(s), None) => r matches Ok(ResultSource::Inline(t)) && t@ == s@,
            (None, Some(p)) => if p@ == "-"@ {
                r matches Ok(ResultSource::Stdin)
            } else {
                r matches Ok(ResultSource::File(t)) && t@ == p@
            },
            (Some(_), Some(_)) => r matches Err(e) && e@ == "Specify only one of --result or --result-file"@,
            (None, None) => r matches Err(e) && e@ == "Specify --result or --result-file with a JSON object payload"@,
        },
{
    match (inline, file) {
        (Some(s), None) => Ok(ResultSource::Inline(s.clone())),
        (None, Some(p)) => if str_eq(p.as_str(), "-") {
            Ok(ResultSource::Stdin)
        } else {
            Ok(ResultSource::File(p.clone()))
        },
        (Some(_), Some(_)) => Err(owned("Specify only one of --result or --result-file")),
        (None, None) => Err(owned("Specify --result or --result-file with a JSON object payload")),
    }
}

/// The diagnosis payload: JSON text that must hold an object.
pub fn parse_result_text(raw: &str) -> (r: Result<serde_json::Value, String>)
    ensures
        r is Ok <==> json_object(raw@),
        r matches Ok(v) ==> v == json_object_value(json_object_of(raw@)),
        r matches Err(e) ==> e@ == if json_valid(raw@) {
            "--result must be a JSON object (e.g. {\"typeCode\":\"ENFJ\"})"@
        } else {
            "--result must be a valid JSON object: "@ + json_error_text(raw@)
        },
{
    match parse_object(raw) {
        Some(map) => Ok(object_value(map)),
        None => {
            if is_json(raw) {
                return Err(owned("--result must be a JSON object (e.g. {\"typeCode\":\"ENFJ\"})"));
            }
            let mut e = owned("--result must be a valid JSON object: ");
            let detail = parse_error(raw);
            e.append(detail.as_str());
            Err(e)
        },
    }
}

} // verus!
