//! The command registry and resolver.
//!
//! A command kind names one of the three operations. Lookup is
//! case-insensitive. An unknown kind fails; the error carries at most one
//! suggestion, the closest of the known kind names (`copy`,
//! `search_replace`, `template`) whose similarity ratio to the unknown
//! kind clears the threshold. The ratio of a kind `k` and a candidate `c` is
//! `2 * lcs(k, c) / (|k| + |c|)` — `lcs` the length of their longest common
//! subsequence — and the threshold is six tenths; both comparisons are made
//! in exact integer arithmetic. Ties go to the earlier candidate.

use vstd::prelude::*;

verus! {

/// The closed set of operations a config entry can request.
#[derive(Clone, Copy, PartialEq, Eq, Structural, Debug)]
pub enum CommandKind {
    Copy,
    SearchReplace,
    Template,
}

/// An unknown command kind, with at most one suggested correction.
#[derive(Debug)]
pub struct CommandNotFoundError {
    pub kind: String,
    pub suggestion: Option<String>,
}

/// ASCII lower-casing of one character.
pub open spec fn spec_lower_char(c: char) -> char {
    if 'A' <= c && c <= 'Z' {
        (((c as u8) + 32) as char)
    } else {
        c
    }
}

/// ASCII lower-casing of a character sequence.
pub open spec fn spec_lower(s: Seq<char>) -> Seq<char> {
    Seq::new(s.len(), |i: int| spec_lower_char(s[i]))
}

/// The name of the copy kind.
pub open spec fn copy_name() -> Seq<char> {
    seq!['c', 'o', 'p', 'y']
}

/// The name of the search-and-replace kind.
pub open spec fn search_replace_name() -> Seq<char> {
    seq!['s', 'e', 'a', 'r', 'c', 'h', '_', 'r', 'e', 'p', 'l', 'a', 'c', 'e']
}

/// The name of the template kind.
pub open spec fn template_name() -> Seq<char> {
    seq!['t', 'e', 'm', 'p', 'l', 'a', 't', 'e']
}

/// Length of the longest common subsequence of `a` and `b`.
pub open spec fn spec_lcs(a: Seq<char>, b: Seq<char>) -> nat
    decreases a.len() + b.len(),
{
    if a.len() == 0 || b.len() == 0 {
        0
    } else if a.last() == b.last() {
        spec_lcs(a.drop_last(), b.drop_last()) + 1
    } else {
        let x = spec_lcs(a.drop_last(), b);
        let y = spec_lcs(a, b.drop_last());
        if x >= y {
            x
        } else {
            y
        }
    }
}

/// A common subsequence is no longer than either sequence.
pub proof fn lemma_lcs_le(a: Seq<char>, b: Seq<char>)
    ensures
        spec_lcs(a, b) <= a.len(),
        spec_lcs(a, b) <= b.len(),
    decreases a.len() + b.len(),
{
    if a.len() == 0 || b.len() == 0 {
    } else if a.last() == b.last() {
        lemma_lcs_le(a.drop_last(), b.drop_last());
    } else {
        lemma_lcs_le(a.drop_last(), b);
        lemma_lcs_le(a, b.drop_last());
    }
}

/// Whether the similarity ratio of `k` and `c` is at least six tenths:
/// `2 * lcs / (|k| + |c|) >= 6/10`, cross-multiplied.
pub open spec fn spec_meets_threshold(k: Seq<char>, c: Seq<char>) -> bool {
    20 * spec_lcs(k, c) >= 6 * (k.len() + c.len())
}

/// Whether `c1` is at least as close to `k` as `c2` is:
/// `ratio(k, c1) >= ratio(k, c2)`, cross-multiplied.
pub open spec fn spec_at_least_as_close(k: Seq<char>, c1: Seq<char>, c2: Seq<char>) -> bool {
    spec_lcs(k, c1) * (k.len() + c2.len()) >= spec_lcs(k, c2) * (k.len() + c1.len())
}

/// The suggestion for an unknown kind `k`: the closest of the known kind
/// names whose ratio clears the threshold, ties to the earlier candidate
/// (in the order copy, search_replace, template), and none when no
/// candidate clears it.
pub open spec fn spec_suggestion(k: Seq<char>) -> Option<Seq<char>> {
    let c1 = copy_name();
    let c2 = search_replace_name();
    let c3 = template_name();
    let m1 = spec_meets_threshold(k, c1);
    let m2 = spec_meets_threshold(k, c2);
    let m3 = spec_meets_threshold(k, c3);
    if m1 && (!m2 || spec_at_least_as_close(k, c1, c2)) && (!m3 || spec_at_least_as_close(
        k,
        c1,
        c3,
    )) {
        Some(c1)
    } else if m2 && (!m3 || spec_at_least_as_close(k, c2, c3)) {
        Some(c2)
    } else if m3 {
        Some(c3)
    } else {
        None
    }
}

/// Whether `s`, lower-cased, spells `t`.
fn eq_lower(s: &str, t: &str) -> (r: bool)
    ensures
        r == (spec_lower(s@) == t@),
{
    let n = s.unicode_len();
    if n != t.unicode_len() {
        return false;
    }
    let mut i: usize = 0;
    while i < n
        invariant
            0 <= i <= n,
            n == s@.len(),
            n == t@.len(),
            forall|j: int| 0 <= j < i ==> spec_lower(s@)[j] == t@[j],
        decreases n - i,
    {
        let cs = s.get_char(i);
        let lc: char = if cs >= 'A' && cs <= 'Z' {
            (((cs as u8) + 32) as char)
        } else {
            cs
        };
        if lc != t.get_char(i) {
            return false;
        }
        i = i + 1;
    }
    proof {
        assert(spec_lower(s@) =~= t@);
    }
    true
}

/// Length of the longest common subsequence of `a` and `b`, by dynamic
/// programming over prefixes.
fn lcs_len(a: &str, b: &str) -> (r: usize)
    requires
        b@.len() < usize::MAX,
    ensures
        r as nat == spec_lcs(a@, b@),
{
    let n = a.unicode_len();
    let m = b.unicode_len();
    let mut prev: Vec<usize> = Vec::new();
    let mut j0: usize = 0;
    while j0 <= m
        invariant
            0 <= j0 <= m + 1,
            m == b@.len(),
            m < usize::MAX,
            prev@.len() == j0,
            forall|j: int| 0 <= j < j0 ==> #[trigger] prev@[j] == spec_lcs(a@.take(0), b@.take(j)),
        decreases m + 1 - j0,
    {
        proof {
            assert(a@.take(0).len() == 0);
        }
        prev.push(0);
        j0 = j0 + 1;
    }
    let mut i: usize = 0;
    while i < n
        invariant
            0 <= i <= n,
            n == a@.len(),
            m == b@.len(),
            m < usize::MAX,
            prev@.len() == m + 1,
            forall|j: int|
                0 <= j <= m ==> #[trigger] prev@[j] == spec_lcs(a@.take(i as int), b@.take(j)),
        decreases n - i,
    {
        let mut cur: Vec<usize> = Vec::new();
        proof {
            assert(b@.take(0).len() == 0);
        }
        cur.push(0);
        let mut j: usize = 0;
        while j < m
            invariant
                0 <= i < n,
                0 <= j <= m,
                n == a@.len(),
                m == b@.len(),
                m < usize::MAX,
                prev@.len() == m + 1,
                forall|jj: int|
                    0 <= jj <= m ==> #[trigger] prev@[jj] == spec_lcs(a@.take(i as int), b@.take(jj)),
                cur@.len() == j + 1,
                forall|jj: int|
                    0 <= jj <= j ==> #[trigger] cur@[jj] == spec_lcs(a@.take(i + 1), b@.take(jj)),
            decreases m - j,
        {
            proof {
                let ap = a@.take(i + 1);
                let bp = b@.take(j + 1);
                assert(ap.len() == i + 1 && bp.len() == j + 1);
                assert(ap.last() == a@[i as int]);
                assert(bp.last() == b@[j as int]);
                assert(ap.drop_last() =~= a@.take(i as int));
                assert(bp.drop_last() =~= b@.take(j as int));
                lemma_lcs_le(a@.take(i as int), b@.take(j as int));
            }
            let v: usize = if a.get_char(i) == b.get_char(j) {
                prev[j] + 1
            } else {
                let x = cur[j];
                let y = prev[j + 1];
                if x >= y {
                    x
                } else {
                    y
                }
            };
            cur.push(v);
            j = j + 1;
        }
        prev = cur;
        i = i + 1;
    }
    proof {
        assert(a@.take(n as int) =~= a@);
        assert(b@.take(m as int) =~= b@);
    }
    prev[m]
}

/// Whether the similarity ratio of `key` and `cand` clears the threshold.
fn meets_threshold(key: &str, cand: &str) -> (r: bool)
    requires
        cand@.len() < usize::MAX,
    ensures
        r == spec_meets_threshold(key@, cand@),
{
    let l = lcs_len(key, cand);
    let lk = key.unicode_len();
    let lc = cand.unicode_len();
    20u128 * (l as u128) >= 6u128 * ((lk as u128) + (lc as u128))
}

/// Whether `c1` is at least as close to `key` as `c2` is. The candidates
/// are short fixed names, which keeps the cross-products in range.
fn at_least_as_close(key: &str, c1: &str, c2: &str) -> (r: bool)
    requires
        c1@.len() <= 100,
        c2@.len() <= 100,
    ensures
        r == spec_at_least_as_close(key@, c1@, c2@),
{
    let l1 = lcs_len(key, c1);
    let l2 = lcs_len(key, c2);
    proof {
        lemma_lcs_le(key@, c1@);
        lemma_lcs_le(key@, c2@);
    }
    let lk = key.unicode_len();
    let lc1 = c1.unicode_len();
    let lc2 = c2.unicode_len();
    proof {
        let y2 = (lk as int) + (lc2 as int);
        let y1 = (lk as int) + (lc1 as int);
        assert((l1 as int) * y2 <= 100 * y2) by (nonlinear_arith)
            requires
                l1 <= 100,
                y2 >= 0,
        ;
        assert((l2 as int) * y1 <= 100 * y1) by (nonlinear_arith)
            requires
                l2 <= 100,
                y1 >= 0,
        ;
    }
    (l1 as u128) * ((lk as u128) + (lc2 as u128)) >= (l2 as u128) * ((lk as u128) + (lc1 as u128))
}

/// The suggestion for an unknown kind, per `spec_suggestion`.
fn suggestion_for(kind: &str) -> (r: Option<String>)
    ensures
        match (r, spec_suggestion(kind@)) {
            (Some(s), Some(ss)) => s@ == ss,
            (None, None) => true,
            _ => false,
        },
{
    let copy = "copy";
    let search_replace = "search_replace";
    let template = "template";
    proof {
        reveal_strlit("copy");
        reveal_strlit("search_replace");
        reveal_strlit("template");
        assert(copy@ =~= copy_name());
        assert(search_replace@ =~= search_replace_name());
        assert(template@ =~= template_name());
    }
    let m1 = meets_threshold(kind, copy);
    let m2 = meets_threshold(kind, search_replace);
    let m3 = meets_threshold(kind, template);
    if m1 && (!m2 || at_least_as_close(kind, copy, search_replace)) && (!m3 || at_least_as_close(
        kind,
        copy,
        template,
    )) {
        Some(copy.to_owned())
    } else if m2 && (!m3 || at_least_as_close(kind, search_replace, template)) {
        Some(search_replace.to_owned())
    } else if m3 {
        Some(template.to_owned())
    } else {
        None
    }
}

/// Resolves a command-kind name, case-insensitively, to the operation it
/// names. An unknown kind fails with the name itself and the suggestion
/// given by `spec_suggestion`.
pub fn resolve(kind: &str) -> (r: Result<CommandKind, CommandNotFoundError>)
    ensures
        spec_lower(kind@) == copy_name() ==> r == Ok::<CommandKind, CommandNotFoundError>(
            CommandKind::Copy,
        ),
        spec_lower(kind@) == search_replace_name() ==> r == Ok::<
            CommandKind,
            CommandNotFoundError,
        >(CommandKind::SearchReplace),
        spec_lower(kind@) == template_name() ==> r == Ok::<CommandKind, CommandNotFoundError>(
            CommandKind::Template,
        ),
        (spec_lower(kind@) != copy_name() && spec_lower(kind@) != search_replace_name()
            && spec_lower(kind@) != template_name()) ==> (r matches Err(e) && e.kind@ == kind@
            && (match (e.suggestion, spec_suggestion(kind@)) {
            (Some(s), Some(ss)) => s@ == ss,
            (None, None) => true,
            _ => false,
        })),
{
    proof {
        reveal_strlit("copy");
        reveal_strlit("search_replace");
        reveal_strlit("template");
        assert("copy"@ =~= copy_name());
        assert("search_replace"@ =~= search_replace_name());
        assert("template"@ =~= template_name());
    }
    if eq_lower(kind, "copy") {
        Ok(CommandKind::Copy)
    } else if eq_lower(kind, "search_replace") {
        Ok(CommandKind::SearchReplace)
    } else if eq_lower(kind, "template") {
        Ok(CommandKind::Template)
    } else {
        let suggestion = suggestion_for(kind);
        Err(CommandNotFoundError { kind: kind.to_owned(), suggestion })
    }
}

} // verus!
