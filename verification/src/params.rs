//! Raw and processed command parameters.
//!
//! Raw parameters are the untyped, optional fields as authored in a config
//! entry; absence is meaningful and survives every stage. Processing renders
//! every string field — the command-local context's keys and values
//! included — through the template interpreter, then resolves `source`
//! against the config file's directory while `destination` passes through as
//! authored (a deliberate asymmetry kept for compatibility).

use vstd::prelude::*;
use vstd::pervasive::arbitrary;

use crate::context::FlatContext;
use crate::render::{error_matches, render, spec_render, RenderOutcome, TemplateError};

verus! {

/// Untyped command parameters as authored. Any field may be absent.
pub struct RawCommandParams {
    pub source: Option<String>,
    pub destination: Option<String>,
    pub overwrite: Option<bool>,
    pub search: Option<String>,
    pub replace: Option<String>,
    pub context: Option<Vec<(String, String)>>,
}

/// Parameters after rendering and path resolution, still loosely typed.
pub struct ProcessedCommandParams {
    pub source: Option<String>,
    pub destination: Option<String>,
    pub overwrite: Option<bool>,
    pub search: Option<String>,
    pub replace: Option<String>,
    pub context: Option<Vec<(String, String)>>,
}

/// Joining a relative path onto a base directory: an absolute path stands
/// alone; otherwise the two are joined with a single separator.
pub open spec fn spec_join(base: Seq<char>, rel: Seq<char>) -> Seq<char> {
    if rel.len() > 0 && rel[0] == '/' {
        rel
    } else if base.len() == 0 {
        rel
    } else if base[base.len() - 1] == '/' {
        base + rel
    } else {
        base + seq!['/'] + rel
    }
}

/// Joins `rel` onto `base` per `spec_join`.
pub fn join_path(base: &str, rel: &str) -> (r: String)
    ensures
        r@ == spec_join(base@, rel@),
{
    let nb = base.unicode_len();
    let nr = rel.unicode_len();
    if nr > 0 && rel.get_char(0) == '/' {
        rel.to_owned()
    } else if nb == 0 {
        rel.to_owned()
    } else if base.get_char(nb - 1) == '/' {
        let mut s = base.to_owned();
        s.append(rel);
        s
    } else {
        proof {
            reveal_strlit("/");
            assert("/"@ =~= seq!['/']);
        }
        let mut s = base.to_owned();
        s.append("/");
        s.append(rel);
        proof {
            assert(s@ =~= base@ + seq!['/'] + rel@);
        }
        s
    }
}

/// Whether an optional string field renders without failure.
pub open spec fn spec_opt_ok(o: Option<String>, c: Seq<(String, String)>) -> bool {
    match o {
        None => true,
        Some(s) => spec_render(s@, c) is Rendered,
    }
}

/// The failure outcome of an optional string field; only consulted when the
/// field is present and fails.
pub open spec fn spec_opt_failure(o: Option<String>, c: Seq<(String, String)>) -> RenderOutcome {
    match o {
        None => arbitrary(),
        Some(s) => spec_render(s@, c),
    }
}

/// Whether every key and value of a context vector renders without failure.
pub open spec fn spec_ctx_entries_ok(v: Seq<(String, String)>, c: Seq<(String, String)>) -> bool {
    forall|i: int|
        0 <= i < v.len() ==> (#[trigger] spec_render(v[i].0@, c)) is Rendered && spec_render(
            v[i].1@,
            c,
        ) is Rendered
}

/// The first failure among a context vector's keys and values, in entry
/// order, key before value; only consulted when one exists.
pub open spec fn spec_ctx_first_failure(
    v: Seq<(String, String)>,
    c: Seq<(String, String)>,
) -> RenderOutcome
    decreases v.len(),
{
    if v.len() == 0 {
        arbitrary()
    } else if !(spec_render(v[0].0@, c) is Rendered) {
        spec_render(v[0].0@, c)
    } else if !(spec_render(v[0].1@, c) is Rendered) {
        spec_render(v[0].1@, c)
    } else {
        spec_ctx_first_failure(v.skip(1), c)
    }
}

/// Whether every string field of `p` renders without failure.
pub open spec fn spec_params_ok(p: RawCommandParams, c: Seq<(String, String)>) -> bool {
    &&& spec_opt_ok(p.source, c)
    &&& spec_opt_ok(p.destination, c)
    &&& spec_opt_ok(p.search, c)
    &&& spec_opt_ok(p.replace, c)
    &&& match p.context {
        None => true,
        Some(v) => spec_ctx_entries_ok(v@, c),
    }
}

/// The first failure among `p`'s string fields, in the order source,
/// destination, search, replace, context entries; only consulted when one
/// exists.
pub open spec fn spec_params_first_failure(
    p: RawCommandParams,
    c: Seq<(String, String)>,
) -> RenderOutcome {
    if !spec_opt_ok(p.source, c) {
        spec_opt_failure(p.source, c)
    } else if !spec_opt_ok(p.destination, c) {
        spec_opt_failure(p.destination, c)
    } else if !spec_opt_ok(p.search, c) {
        spec_opt_failure(p.search, c)
    } else if !spec_opt_ok(p.replace, c) {
        spec_opt_failure(p.replace, c)
    } else {
        match p.context {
            None => arbitrary(),
            Some(v) => spec_ctx_first_failure(v@, c),
        }
    }
}

/// How a fully rendered `q` relates to the raw `p`: every string field of
/// `q` is the rendering of the same field of `p`, presence is preserved
/// field by field, and `overwrite` passes through untouched.
pub open spec fn spec_params_rendered(
    p: RawCommandParams,
    q: RawCommandParams,
    c: Seq<(String, String)>,
) -> bool {
    &&& match (p.source, q.source) {
        (None, None) => true,
        (Some(s), Some(t)) => spec_render(s@, c) == RenderOutcome::Rendered(t@),
        _ => false,
    }
    &&& match (p.destination, q.destination) {
        (None, None) => true,
        (Some(s), Some(t)) => spec_render(s@, c) == RenderOutcome::Rendered(t@),
        _ => false,
    }
    &&& match (p.search, q.search) {
        (None, None) => true,
        (Some(s), Some(t)) => spec_render(s@, c) == RenderOutcome::Rendered(t@),
        _ => false,
    }
    &&& match (p.replace, q.replace) {
        (None, None) => true,
        (Some(s), Some(t)) => spec_render(s@, c) == RenderOutcome::Rendered(t@),
        _ => false,
    }
    &&& p.overwrite == q.overwrite
    &&& match (p.context, q.context) {
        (None, None) => true,
        (Some(v), Some(w)) => w@.len() == v@.len() && (forall|i: int|
            0 <= i < v@.len() ==> (#[trigger] spec_render(v@[i].0@, c)) == RenderOutcome::Rendered(
                w@[i].0@,
            ) && spec_render(v@[i].1@, c) == RenderOutcome::Rendered(w@[i].1@)),
        _ => false,
    }
}

/// Rendering a context vector reads the context only through lookups.
pub proof fn lemma_ctx_entries_ok_congruent(
    v: Seq<(String, String)>,
    c1: Seq<(String, String)>,
    c2: Seq<(String, String)>,
)
    requires
        forall|k: Seq<char>| #[trigger] crate::context::ctx_lookup(c1, k)
            == crate::context::ctx_lookup(c2, k),
    ensures
        spec_ctx_entries_ok(v, c1) == spec_ctx_entries_ok(v, c2),
{
    assert forall|i: int| 0 <= i < v.len() implies (#[trigger] spec_render(v[i].0@, c1))
        == spec_render(v[i].0@, c2) && spec_render(v[i].1@, c1) == spec_render(v[i].1@, c2) by {
        crate::render::lemma_render_lookup_congruent(v[i].0@, 0, c1, c2);
        crate::render::lemma_render_lookup_congruent(v[i].1@, 0, c1, c2);
    }
    if spec_ctx_entries_ok(v, c1) {
        assert forall|i: int| 0 <= i < v.len() implies (#[trigger] spec_render(v[i].0@, c2))
            is Rendered && spec_render(v[i].1@, c2) is Rendered by {
            assert(spec_render(v[i].0@, c1) is Rendered && spec_render(v[i].1@, c1) is Rendered);
        }
    }
    if spec_ctx_entries_ok(v, c2) {
        assert forall|i: int| 0 <= i < v.len() implies (#[trigger] spec_render(v[i].0@, c1))
            is Rendered && spec_render(v[i].1@, c1) is Rendered by {
            assert(spec_render(v[i].0@, c2) is Rendered && spec_render(v[i].1@, c2) is Rendered);
        }
    }
}

/// The first context failure reads the context only through lookups.
pub proof fn lemma_ctx_first_failure_congruent(
    v: Seq<(String, String)>,
    c1: Seq<(String, String)>,
    c2: Seq<(String, String)>,
)
    requires
        forall|k: Seq<char>| #[trigger] crate::context::ctx_lookup(c1, k)
            == crate::context::ctx_lookup(c2, k),
    ensures
        spec_ctx_first_failure(v, c1) == spec_ctx_first_failure(v, c2),
    decreases v.len(),
{
    if v.len() > 0 {
        crate::render::lemma_render_lookup_congruent(v[0].0@, 0, c1, c2);
        crate::render::lemma_render_lookup_congruent(v[0].1@, 0, c1, c2);
        lemma_ctx_first_failure_congruent(v.skip(1), c1, c2);
    }
}

/// Parameter rendering reads the context only through lookups: two contexts
/// that answer every lookup alike succeed, fail and render alike.
pub proof fn lemma_params_congruent(
    p: RawCommandParams,
    c1: Seq<(String, String)>,
    c2: Seq<(String, String)>,
)
    requires
        forall|k: Seq<char>| #[trigger] crate::context::ctx_lookup(c1, k)
            == crate::context::ctx_lookup(c2, k),
    ensures
        spec_params_ok(p, c1) == spec_params_ok(p, c2),
        spec_params_first_failure(p, c1) == spec_params_first_failure(p, c2),
        forall|q: RawCommandParams| spec_params_rendered(p, q, c1) ==> #[trigger]
        spec_params_rendered(p, q, c2),
{
    if p.source is Some {
        crate::render::lemma_render_lookup_congruent(p.source->Some_0@, 0, c1, c2);
    }
    if p.destination is Some {
        crate::render::lemma_render_lookup_congruent(p.destination->Some_0@, 0, c1, c2);
    }
    if p.search is Some {
        crate::render::lemma_render_lookup_congruent(p.search->Some_0@, 0, c1, c2);
    }
    if p.replace is Some {
        crate::render::lemma_render_lookup_congruent(p.replace->Some_0@, 0, c1, c2);
    }
    match p.context {
        Some(v) => {
            lemma_ctx_entries_ok_congruent(v@, c1, c2);
            lemma_ctx_first_failure_congruent(v@, c1, c2);
            assert forall|i: int| 0 <= i < v@.len() implies (#[trigger] spec_render(
                v@[i].0@,
                c1,
            )) == spec_render(v@[i].0@, c2) && spec_render(v@[i].1@, c1) == spec_render(
                v@[i].1@,
                c2,
            ) by {
                crate::render::lemma_render_lookup_congruent(v@[i].0@, 0, c1, c2);
                crate::render::lemma_render_lookup_congruent(v@[i].1@, 0, c1, c2);
            }
        },
        None => {},
    }
    assert forall|q: RawCommandParams| spec_params_rendered(p, q, c1) implies #[trigger]
    spec_params_rendered(p, q, c2) by {
        match (p.context, q.context) {
            (Some(v), Some(w)) => {
                assert forall|i: int|
                    0 <= i < v@.len() implies (#[trigger] spec_render(v@[i].0@, c2))
                    == RenderOutcome::Rendered(w@[i].0@) && spec_render(v@[i].1@, c2)
                    == RenderOutcome::Rendered(w@[i].1@) by {
                    assert(spec_render(v@[i].0@, c1) == RenderOutcome::Rendered(w@[i].0@)
                        && spec_render(v@[i].1@, c1) == RenderOutcome::Rendered(w@[i].1@));
                    assert(spec_render(v@[i].0@, c1) == spec_render(v@[i].0@, c2));
                }
            },
            _ => {},
        }
    }
}

/// Renders one optional string field.
fn render_opt(o: &Option<String>, ctx: &FlatContext) -> (r: Result<Option<String>, TemplateError>)
    ensures
        match (r, *o) {
            (Ok(w), None) => w is None,
            (Ok(w), Some(s)) => w matches Some(t) && spec_render(s@, ctx.entries@)
                == RenderOutcome::Rendered(t@),
            (Err(_), None) => false,
            (Err(e), Some(s)) => !(spec_render(s@, ctx.entries@) is Rendered) && error_matches(
                e,
                spec_render(s@, ctx.entries@),
            ),
        },
{
    match o {
        None => Ok(None),
        Some(s) => match render(s.as_str(), ctx) {
            Ok(t) => Ok(Some(t)),
            Err(e) => Err(e),
        },
    }
}

/// Entries before `i` all render, so the first failure from `i` on is the
/// first failure overall.
proof fn lemma_ctx_first_failure_skip(
    v: Seq<(String, String)>,
    c: Seq<(String, String)>,
    i: int,
)
    requires
        0 <= i <= v.len(),
        forall|j: int|
            0 <= j < i ==> (#[trigger] spec_render(v[j].0@, c)) is Rendered && spec_render(
                v[j].1@,
                c,
            ) is Rendered,
    ensures
        spec_ctx_first_failure(v, c) == spec_ctx_first_failure(v.skip(i), c),
    decreases i,
{
    if i > 0 {
        assert(spec_render(v[0].0@, c) is Rendered && spec_render(v[0].1@, c) is Rendered);
        let v1 = v.skip(1);
        assert forall|j: int|
            0 <= j < i - 1 implies (#[trigger] spec_render(v1[j].0@, c)) is Rendered
            && spec_render(v1[j].1@, c) is Rendered by {
            assert(v1[j] == v[j + 1]);
            assert(spec_render(v[j + 1].0@, c) is Rendered && spec_render(v[j + 1].1@, c)
                is Rendered);
        }
        lemma_ctx_first_failure_skip(v1, c, i - 1);
        assert(v1.skip(i - 1) =~= v.skip(i));
    } else {
        assert(v.skip(0) =~= v);
    }
}

/// Renders every key and value of a context vector, in entry order.
fn render_ctx_entries(v: &Vec<(String, String)>, ctx: &FlatContext) -> (r: Result<
    Vec<(String, String)>,
    TemplateError,
>)
    ensures
        match r {
            Ok(w) => spec_ctx_entries_ok(v@, ctx.entries@) && w@.len() == v@.len() && (forall|
                i: int,
            |
                0 <= i < v@.len() ==> (#[trigger] spec_render(v@[i].0@, ctx.entries@))
                    == RenderOutcome::Rendered(w@[i].0@) && spec_render(v@[i].1@, ctx.entries@)
                    == RenderOutcome::Rendered(w@[i].1@)),
            Err(e) => !spec_ctx_entries_ok(v@, ctx.entries@) && error_matches(
                e,
                spec_ctx_first_failure(v@, ctx.entries@),
            ),
        },
{
    let n = v.len();
    let mut out: Vec<(String, String)> = Vec::new();
    let mut i: usize = 0;
    while i < n
        invariant
            0 <= i <= n,
            n == v@.len(),
            out@.len() == i,
            forall|j: int|
                0 <= j < i ==> (#[trigger] spec_render(v@[j].0@, ctx.entries@))
                    == RenderOutcome::Rendered(out@[j].0@) && spec_render(v@[j].1@, ctx.entries@)
                    == RenderOutcome::Rendered(out@[j].1@),
        decreases n - i,
    {
        let rk = match render(v[i].0.as_str(), ctx) {
            Ok(t) => t,
            Err(e) => {
                proof {
                    lemma_ctx_first_failure_skip(v@, ctx.entries@, i as int);
                    assert(v@.skip(i as int)[0] == v@[i as int]);
                }
                return Err(e);
            },
        };
        let rv = match render(v[i].1.as_str(), ctx) {
            Ok(t) => t,
            Err(e) => {
                proof {
                    lemma_ctx_first_failure_skip(v@, ctx.entries@, i as int);
                    assert(v@.skip(i as int)[0] == v@[i as int]);
                }
                return Err(e);
            },
        };
        out.push((rk, rv));
        i = i + 1;
    }
    Ok(out)
}

/// Renders every string field of `raw` — the context entries included —
/// against the merged context. Fails with the first field that fails, in
/// the order source, destination, search, replace, context entries.
pub fn render_params(raw: &RawCommandParams, ctx: &FlatContext) -> (r: Result<
    RawCommandParams,
    TemplateError,
>)
    ensures
        match r {
            Ok(q) => spec_params_ok(*raw, ctx.entries@) && spec_params_rendered(
                *raw,
                q,
                ctx.entries@,
            ),
            Err(e) => !spec_params_ok(*raw, ctx.entries@) && error_matches(
                e,
                spec_params_first_failure(*raw, ctx.entries@),
            ),
        },
{
    let source = match render_opt(&raw.source, ctx) {
        Ok(w) => w,
        Err(e) => {
            return Err(e);
        },
    };
    let destination = match render_opt(&raw.destination, ctx) {
        Ok(w) => w,
        Err(e) => {
            return Err(e);
        },
    };
    let search = match render_opt(&raw.search, ctx) {
        Ok(w) => w,
        Err(e) => {
            return Err(e);
        },
    };
    let replace = match render_opt(&raw.replace, ctx) {
        Ok(w) => w,
        Err(e) => {
            return Err(e);
        },
    };
    let context = match &raw.context {
        None => None,
        Some(v) => match render_ctx_entries(v, ctx) {
            Ok(w) => Some(w),
            Err(e) => {
                return Err(e);
            },
        },
    };
    Ok(
        RawCommandParams {
            source,
            destination,
            overwrite: raw.overwrite,
            search,
            replace,
            context,
        },
    )
}

} // verus!
