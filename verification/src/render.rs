//! The template interpreter.
//!
//! A template is scanned left to right. `{{` opens a placeholder; the text
//! up to the next `}}`, trimmed of spaces, names a context key whose value
//! replaces the whole placeholder. A referenced key absent from the context
//! is an error, as is a `{{` with no closing `}}`; nothing partial is ever
//! returned. Text without placeholders passes through unchanged.

use vstd::prelude::*;

use crate::context::{ctx_lookup, FlatContext};

verus! {

/// Why rendering failed.
#[derive(Debug)]
pub enum TemplateError {
    /// The placeholder named a key the context does not hold.
    UndefinedVariable(String),
    /// A `{{` had no matching `}}`.
    UnclosedPlaceholder,
}

/// The outcome rendering must realise, stated over character sequences.
pub enum RenderOutcome {
    /// Full rendering, with the substituted text.
    Rendered(Seq<char>),
    /// A placeholder referenced this key, absent from the context.
    Undefined(Seq<char>),
    /// A `{{` was never closed.
    Unclosed,
}

/// The position of the first `}}` at or after `i`, if any.
pub open spec fn spec_find_close(t: Seq<char>, i: int) -> Option<int>
    decreases t.len() - i,
{
    if i + 2 > t.len() {
        None
    } else if t[i] == '}' && t[i + 1] == '}' {
        Some(i)
    } else {
        spec_find_close(t, i + 1)
    }
}

/// A found `}}` lies at or after the start of the search and fits in the text.
pub proof fn lemma_find_close_bounds(t: Seq<char>, i: int)
    requires
        spec_find_close(t, i) is Some,
    ensures
        i <= spec_find_close(t, i).unwrap(),
        spec_find_close(t, i).unwrap() + 2 <= t.len(),
    decreases t.len() - i,
{
    if i + 2 > t.len() {
    } else if t[i] == '}' && t[i + 1] == '}' {
    } else {
        lemma_find_close_bounds(t, i + 1);
    }
}

/// `s` without leading and trailing spaces.
pub open spec fn spec_trim(s: Seq<char>) -> Seq<char>
    decreases s.len(),
{
    if s.len() == 0 {
        s
    } else if s[0] == ' ' {
        spec_trim(s.skip(1))
    } else if s[s.len() - 1] == ' ' {
        spec_trim(s.take(s.len() - 1))
    } else {
        s
    }
}

/// Rendering of `t` from position `i` on. Literal characters pass through;
/// each placeholder is replaced by the context value of its trimmed key;
/// the first failure wins.
pub open spec fn spec_render_from(t: Seq<char>, i: int, ctx: Seq<(String, String)>) -> RenderOutcome
    decreases t.len() - i,
        via spec_render_from_dec
{
    if i >= t.len() {
        RenderOutcome::Rendered(Seq::empty())
    } else if i + 1 < t.len() && t[i] == '{' && t[i + 1] == '{' {
        match spec_find_close(t, i + 2) {
            None => RenderOutcome::Unclosed,
            Some(j) => {
                let key = spec_trim(t.subrange(i + 2, j));
                match ctx_lookup(ctx, key) {
                    None => RenderOutcome::Undefined(key),
                    Some(v) => match spec_render_from(t, j + 2, ctx) {
                        RenderOutcome::Rendered(rest) => RenderOutcome::Rendered(v + rest),
                        e => e,
                    },
                }
            },
        }
    } else {
        match spec_render_from(t, i + 1, ctx) {
            RenderOutcome::Rendered(rest) => RenderOutcome::Rendered(seq![t[i]] + rest),
            e => e,
        }
    }
}

#[via_fn]
proof fn spec_render_from_dec(t: Seq<char>, i: int, ctx: Seq<(String, String)>) {
    if i < t.len() && i + 1 < t.len() && t[i] == '{' && t[i + 1] == '{' {
        if spec_find_close(t, i + 2) is Some {
            lemma_find_close_bounds(t, i + 2);
        }
    }
}

/// Rendering of the whole template.
pub open spec fn spec_render(t: Seq<char>, ctx: Seq<(String, String)>) -> RenderOutcome {
    spec_render_from(t, 0, ctx)
}

/// Whether the error `e` reports the failure outcome `o`.
pub open spec fn error_matches(e: TemplateError, o: RenderOutcome) -> bool {
    match o {
        RenderOutcome::Rendered(_) => false,
        RenderOutcome::Undefined(k) => e matches TemplateError::UndefinedVariable(key) && key@
            == k,
        RenderOutcome::Unclosed => e matches TemplateError::UnclosedPlaceholder,
    }
}

/// The position of the first `}}` at or after `i`.
fn find_close(template: &str, i: usize) -> (r: Option<usize>)
    requires
        i <= template@.len(),
    ensures
        match r {
            Some(j) => spec_find_close(template@, i as int) == Some(j as int),
            None => spec_find_close(template@, i as int) is None,
        },
    decreases template@.len() - i,
{
    let n = template.unicode_len();
    if n < 2 || i > n - 2 {
        return None;
    }
    if template.get_char(i) == '}' && template.get_char(i + 1) == '}' {
        Some(i)
    } else {
        find_close(template, i + 1)
    }
}

/// `s` without leading and trailing spaces.
fn trim_str(s: &str) -> (r: String)
    ensures
        r@ == spec_trim(s@),
    decreases s@.len(),
{
    let n = s.unicode_len();
    if n == 0 {
        s.to_owned()
    } else if s.get_char(0) == ' ' {
        let rest = s.substring_char(1, n);
        proof {
            assert(rest@ =~= s@.skip(1));
        }
        trim_str(rest)
    } else if s.get_char(n - 1) == ' ' {
        let rest = s.substring_char(0, n - 1);
        proof {
            assert(rest@ =~= s@.take(s@.len() - 1));
        }
        trim_str(rest)
    } else {
        s.to_owned()
    }
}

/// Rendering from position `i` on, against `spec_render_from`.
fn render_from(template: &str, i: usize, ctx: &FlatContext) -> (r: Result<String, TemplateError>)
    requires
        i <= template@.len(),
    ensures
        match spec_render_from(template@, i as int, ctx.entries@) {
            RenderOutcome::Rendered(s) => r matches Ok(out) && out@ == s,
            RenderOutcome::Undefined(k) => r matches Err(TemplateError::UndefinedVariable(key))
                && key@ == k,
            RenderOutcome::Unclosed => r matches Err(TemplateError::UnclosedPlaceholder),
        },
    decreases template@.len() - i,
{
    let n = template.unicode_len();
    if i >= n {
        return Ok(String::new());
    }
    let c0 = template.get_char(i);
    if c0 == '{' && i + 1 < n && template.get_char(i + 1) == '{' {
        match find_close(template, i + 2) {
            None => Err(TemplateError::UnclosedPlaceholder),
            Some(j) => {
                proof {
                    lemma_find_close_bounds(template@, i as int + 2);
                }
                let key_raw = template.substring_char(i + 2, j);
                proof {
                    assert(key_raw@ =~= template@.subrange(i as int + 2, j as int));
                }
                let key = trim_str(key_raw);
                match ctx.get(&key) {
                    None => Err(TemplateError::UndefinedVariable(key)),
                    Some(v) => {
                        match render_from(template, j + 2, ctx) {
                            Ok(rest) => {
                                let mut out = v.clone();
                                out.append(rest.as_str());
                                Ok(out)
                            },
                            Err(e) => Err(e),
                        }
                    },
                }
            },
        }
    } else {
        match render_from(template, i + 1, ctx) {
            Ok(rest) => {
                let head = template.substring_char(i, i + 1);
                proof {
                    assert(head@ =~= seq![template@[i as int]]);
                }
                let mut out = head.to_owned();
                out.append(rest.as_str());
                Ok(out)
            },
            Err(e) => Err(e),
        }
    }
}

/// Renders `template` against `ctx`: every placeholder `{{key}}` becomes the
/// context value of its trimmed key; an absent key or an unclosed `{{` is an
/// error and nothing partial is returned.
pub fn render(template: &str, ctx: &FlatContext) -> (r: Result<String, TemplateError>)
    ensures
        match spec_render(template@, ctx.entries@) {
            RenderOutcome::Rendered(s) => r matches Ok(out) && out@ == s,
            RenderOutcome::Undefined(k) => r matches Err(TemplateError::UndefinedVariable(key))
                && key@ == k,
            RenderOutcome::Unclosed => r matches Err(TemplateError::UnclosedPlaceholder),
        },
{
    render_from(template, 0, ctx)
}

/// A template with no `{{` anywhere renders to itself, whatever the context.
pub proof fn lemma_render_no_placeholders(t: Seq<char>, ctx: Seq<(String, String)>)
    requires
        forall|j: int| 0 <= j < t.len() - 1 ==> !(#[trigger] t[j] == '{' && t[j + 1] == '{'),
    ensures
        spec_render(t, ctx) == RenderOutcome::Rendered(t),
{
    lemma_render_no_placeholders_from(t, 0, ctx);
    assert(t.skip(0) =~= t);
}

proof fn lemma_render_no_placeholders_from(t: Seq<char>, i: int, ctx: Seq<(String, String)>)
    requires
        0 <= i <= t.len(),
        forall|j: int| 0 <= j < t.len() - 1 ==> !(#[trigger] t[j] == '{' && t[j + 1] == '{'),
    ensures
        spec_render_from(t, i, ctx) == RenderOutcome::Rendered(t.skip(i)),
    decreases t.len() - i,
{
    if i >= t.len() {
        assert(t.skip(i) =~= Seq::<char>::empty());
    } else {
        lemma_render_no_placeholders_from(t, i + 1, ctx);
        assert(seq![t[i]] + t.skip(i + 1) =~= t.skip(i));
    }
}

/// Rendering reads the context only through lookups: two contexts that
/// answer every lookup alike render every template alike.
pub proof fn lemma_render_lookup_congruent(
    t: Seq<char>,
    i: int,
    c1: Seq<(String, String)>,
    c2: Seq<(String, String)>,
)
    requires
        forall|k: Seq<char>| #[trigger] ctx_lookup(c1, k) == ctx_lookup(c2, k),
    ensures
        spec_render_from(t, i, c1) == spec_render_from(t, i, c2),
    decreases t.len() - i,
{
    if i >= t.len() {
    } else if i + 1 < t.len() && t[i] == '{' && t[i + 1] == '{' {
        match spec_find_close(t, i + 2) {
            None => {},
            Some(j) => {
                lemma_find_close_bounds(t, i + 2);
                let key = spec_trim(t.subrange(i + 2, j));
                assert(ctx_lookup(c1, key) == ctx_lookup(c2, key));
                if ctx_lookup(c1, key) is Some {
                    lemma_render_lookup_congruent(t, j + 2, c1, c2);
                }
            },
        }
    } else {
        lemma_render_lookup_congruent(t, i + 1, c1, c2);
    }
}

/// Between `i` and `j` no `}` occurs, and a `}}` stands at `j`: the search
/// from `i` finds exactly `j`.
proof fn lemma_find_close_at(t: Seq<char>, i: int, j: int)
    requires
        0 <= i <= j,
        j + 2 <= t.len(),
        forall|m: int| i <= m < j ==> #[trigger] t[m] != '}',
        t[j] == '}' && t[j + 1] == '}',
    ensures
        spec_find_close(t, i) == Some(j),
    decreases j - i,
{
    if i < j {
        assert(t[i] != '}');
        lemma_find_close_at(t, i + 1, j);
    }
}

/// A template that is one placeholder around `k` — with no `}` in `k` and
/// no space at its ends — renders to exactly the context's value for `k`,
/// and fails as undefined exactly when the context holds no binding.
pub proof fn lemma_render_single_placeholder(k: Seq<char>, c: Seq<(String, String)>)
    requires
        forall|m: int| 0 <= m < k.len() ==> #[trigger] k[m] != '}',
        k.len() > 0 ==> (k[0] != ' ' && k[k.len() - 1] != ' '),
    ensures
        spec_render(seq!['{', '{'] + k + seq!['}', '}'], c) == (match ctx_lookup(c, k) {
            Some(v) => RenderOutcome::Rendered(v),
            None => RenderOutcome::Undefined(k),
        }),
{
    let t = seq!['{', '{'] + k + seq!['}', '}'];
    let j = 2 + k.len() as int;
    assert(t.len() == k.len() + 4);
    assert(t[0] == '{' && t[1] == '{');
    assert forall|m: int| 2 <= m < j implies #[trigger] t[m] != '}' by {
        assert(t[m] == k[m - 2]);
    }
    assert(t[j] == '}' && t[j + 1] == '}');
    lemma_find_close_at(t, 2, j);
    assert(t.subrange(2, j) =~= k);
    assert(spec_trim(k) == k);
    match ctx_lookup(c, k) {
        Some(v) => {
            assert(spec_render_from(t, j + 2, c) == RenderOutcome::Rendered(Seq::<char>::empty()));
            assert(v + Seq::<char>::empty() =~= v);
        },
        None => {},
    }
}

/// A failed lookup is honest: when rendering reports an undefined variable,
/// the context indeed holds no binding for that key.
pub proof fn lemma_undefined_key_absent(t: Seq<char>, ctx: Seq<(String, String)>, k: Seq<char>)
    requires
        spec_render(t, ctx) == RenderOutcome::Undefined(k),
    ensures
        ctx_lookup(ctx, k) is None,
{
    lemma_undefined_key_absent_from(t, 0, ctx, k);
}

proof fn lemma_undefined_key_absent_from(t: Seq<char>, i: int, ctx: Seq<(String, String)>, k: Seq<char>)
    requires
        spec_render_from(t, i, ctx) == RenderOutcome::Undefined(k),
    ensures
        ctx_lookup(ctx, k) is None,
    decreases t.len() - i,
{
    if i >= t.len() {
    } else if i + 1 < t.len() && t[i] == '{' && t[i + 1] == '{' {
        match spec_find_close(t, i + 2) {
            None => {},
            Some(j) => {
                lemma_find_close_bounds(t, i + 2);
                let key = spec_trim(t.subrange(i + 2, j));
                if ctx_lookup(ctx, key) is Some {
                    lemma_undefined_key_absent_from(t, j + 2, ctx, k);
                }
            },
        }
    } else {
        lemma_undefined_key_absent_from(t, i + 1, ctx, k);
    }
}

} // verus!
