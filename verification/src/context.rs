//! Context layers and their merge.
//!
//! A context is an association list of key/value pairs. Lookup takes the
//! first entry whose key matches, so earlier entries shadow later ones.
//! Merging the three layers is concatenation in precedence order:
//! command-local entries first, then config-global, then cli-positional.

use vstd::prelude::*;

verus! {

/// First-match lookup in an association sequence: earlier entries shadow
/// later ones. The result is the view of the first value whose key's view
/// is `k`.
pub open spec fn ctx_lookup(s: Seq<(String, String)>, k: Seq<char>) -> Option<Seq<char>>
    decreases s.len(),
{
    if s.len() <= 0 {
        None
    } else if s[0].0@ == k {
        Some(s[0].1@)
    } else {
        ctx_lookup(s.skip(1), k)
    }
}

/// Lookup only reads the views of the entries: two entry sequences equal
/// view by view give the same lookup.
pub proof fn lemma_ctx_lookup_congruent(s1: Seq<(String, String)>, s2: Seq<(String, String)>, k: Seq<char>)
    requires
        s1.len() == s2.len(),
        forall|j: int| #![trigger s1[j], s2[j]]
            0 <= j < s1.len() ==> s1[j].0@ == s2[j].0@ && s1[j].1@ == s2[j].1@,
    ensures
        ctx_lookup(s1, k) == ctx_lookup(s2, k),
    decreases s1.len(),
{
    if s1.len() > 0 {
        assert(s1[0].0@ == s2[0].0@ && s1[0].1@ == s2[0].1@);
        assert forall|j: int| #![trigger s1.skip(1)[j], s2.skip(1)[j]]
            0 <= j < s1.skip(1).len() implies s1.skip(1)[j].0@ == s2.skip(1)[j].0@
            && s1.skip(1)[j].1@ == s2.skip(1)[j].1@ by {
            assert(s1.skip(1)[j] == s1[j + 1]);
            assert(s2.skip(1)[j] == s2[j + 1]);
            assert(s1[j + 1].0@ == s2[j + 1].0@ && s1[j + 1].1@ == s2[j + 1].1@);
        }
        lemma_ctx_lookup_congruent(s1.skip(1), s2.skip(1), k);
    }
}

/// Lookup in a concatenation: entries of the first list shadow the second.
pub proof fn lemma_ctx_lookup_concat(a: Seq<(String, String)>, b: Seq<(String, String)>, k: Seq<char>)
    ensures
        ctx_lookup(a + b, k) == (if ctx_lookup(a, k) is Some {
            ctx_lookup(a, k)
        } else {
            ctx_lookup(b, k)
        }),
    decreases a.len(),
{
    if a.len() == 0 {
        assert(a + b =~= b);
    } else {
        assert((a + b)[0] == a[0]);
        assert((a + b).skip(1) =~= a.skip(1) + b);
        lemma_ctx_lookup_concat(a.skip(1), b, k);
    }
}

/// A flat key/value mapping produced by merging the three context layers.
pub struct FlatContext {
    pub entries: Vec<(String, String)>,
}

impl FlatContext {
    /// What this context maps `k` to, if anything.
    pub open spec fn spec_lookup(&self, k: Seq<char>) -> Option<Seq<char>> {
        ctx_lookup(self.entries@, k)
    }

    /// An empty context.
    pub fn new() -> (r: FlatContext)
        ensures
            r.entries@.len() == 0,
            forall|k: Seq<char>| r.spec_lookup(k) is None,
    {
        FlatContext { entries: Vec::new() }
    }

    /// The value bound to `key`, if the context holds one.
    pub fn get(&self, key: &String) -> (r: Option<&String>)
        ensures
            match r {
                Some(v) => self.spec_lookup(key@) == Some(v@),
                None => self.spec_lookup(key@) is None,
            },
    {
        let n = self.entries.len();
        let mut i: usize = 0;
        proof {
            assert(self.entries@.skip(0) =~= self.entries@);
        }
        while i < n
            invariant
                0 <= i <= n,
                n == self.entries@.len(),
                ctx_lookup(self.entries@.skip(i as int), key@) == ctx_lookup(
                    self.entries@,
                    key@,
                ),
            decreases n - i,
        {
            proof {
                assert(self.entries@.skip(i as int)[0] == self.entries@[i as int]);
                assert(self.entries@.skip(i as int).skip(1) =~= self.entries@.skip(i as int + 1));
            }
            if self.entries[i].0 == *key {
                return Some(&self.entries[i].1);
            }
            i = i + 1;
        }
        None
    }
}

impl FlatContext {
    /// A context holding clones of the given entries, answering every
    /// lookup as the entries themselves do.
    pub fn from_entries(src: &Vec<(String, String)>) -> (r: FlatContext)
        ensures
            r.entries@.len() == src@.len(),
            forall|k: Seq<char>| #[trigger] r.spec_lookup(k) == ctx_lookup(src@, k),
    {
        let mut entries: Vec<(String, String)> = Vec::new();
        push_all(&mut entries, src);
        proof {
            assert forall|j: int| 0 <= j < src@.len() implies #[trigger] entries@[j].0@
                == src@[j].0@ && entries@[j].1@ == src@[j].1@ by {
                assert(entries@[0 + j].0@ == src@[j].0@ && entries@[0 + j].1@ == src@[j].1@);
            }
            assert forall|k: Seq<char>| #[trigger] ctx_lookup(entries@, k) == ctx_lookup(
                src@,
                k,
            ) by {
                lemma_ctx_lookup_congruent(entries@, src@, k);
            }
        }
        FlatContext { entries }
    }
}

/// Clones every entry of `src` onto the end of `dst`.
fn push_all(dst: &mut Vec<(String, String)>, src: &Vec<(String, String)>)
    ensures
        final(dst)@.len() == old(dst)@.len() + src@.len(),
        forall|j: int| 0 <= j < old(dst)@.len() ==> #[trigger] final(dst)@[j] == old(dst)@[j],
        forall|j: int| #![trigger src@[j]]
            0 <= j < src@.len() ==> final(dst)@[old(dst)@.len() + j].0@ == src@[j].0@
                && final(dst)@[old(dst)@.len() + j].1@ == src@[j].1@,
{
    let ghost base = dst@;
    let n = src.len();
    let mut i: usize = 0;
    while i < n
        invariant
            0 <= i <= n,
            n == src@.len(),
            dst@.len() == base.len() + i,
            forall|j: int| 0 <= j < base.len() ==> #[trigger] dst@[j] == base[j],
            forall|j: int| #![trigger src@[j]]
                0 <= j < i ==> dst@[base.len() + j].0@ == src@[j].0@ && dst@[base.len()
                    + j].1@ == src@[j].1@,
        decreases n - i,
    {
        let k = src[i].0.clone();
        let v = src[i].1.clone();
        dst.push((k, v));
        i = i + 1;
    }
}

/// Clones of the given entries, answering every lookup as the entries
/// themselves do.
pub fn clone_entries(src: &Vec<(String, String)>) -> (r: Vec<(String, String)>)
    ensures
        r@.len() == src@.len(),
        forall|j: int|
            #![trigger r@[j]]
            0 <= j < src@.len() ==> r@[j].0@ == src@[j].0@ && r@[j].1@ == src@[j].1@,
        forall|k: Seq<char>| #[trigger] ctx_lookup(r@, k) == ctx_lookup(src@, k),
{
    let mut out: Vec<(String, String)> = Vec::new();
    push_all(&mut out, src);
    proof {
        assert forall|j: int| #![trigger out@[j]] 0 <= j < src@.len() implies out@[j].0@
            == src@[j].0@ && out@[j].1@ == src@[j].1@ by {
            assert(out@[0 + j].0@ == src@[j].0@ && out@[0 + j].1@ == src@[j].1@);
        }
        assert forall|k: Seq<char>| #[trigger] ctx_lookup(out@, k) == ctx_lookup(src@, k) by {
            lemma_ctx_lookup_congruent(out@, src@, k);
        }
    }
    out
}

/// The three named context layers, lowest precedence first in the field
/// order below: cli-positional, then config-global, then command-local.
pub struct ContextMap {
    pub cli_positional: Vec<(String, String)>,
    pub config_global: Vec<(String, String)>,
    pub command_local: Vec<(String, String)>,
}

impl ContextMap {
    /// The lookup the merged context must realise: for every key, the
    /// highest-precedence layer containing it wins (command-local over
    /// config-global over cli-positional); a key unique to any layer keeps
    /// its value from that layer.
    pub open spec fn spec_merged_lookup(&self, k: Seq<char>) -> Option<Seq<char>> {
        if ctx_lookup(self.command_local@, k) is Some {
            ctx_lookup(self.command_local@, k)
        } else if ctx_lookup(self.config_global@, k) is Some {
            ctx_lookup(self.config_global@, k)
        } else {
            ctx_lookup(self.cli_positional@, k)
        }
    }

    /// Merges the three layers into one flat context with the precedence
    /// stated by `spec_merged_lookup`.
    pub fn do_merge(&self) -> (r: FlatContext)
        ensures
            forall|k: Seq<char>| #[trigger] r.spec_lookup(k) == self.spec_merged_lookup(k),
    {
        let mut entries: Vec<(String, String)> = Vec::new();
        push_all(&mut entries, &self.command_local);
        push_all(&mut entries, &self.config_global);
        push_all(&mut entries, &self.cli_positional);
        proof {
            let l = self.command_local@;
            let g = self.config_global@;
            let c = self.cli_positional@;
            let cat = (l + g) + c;
            assert(entries@.len() == cat.len());
            assert forall|j: int| #![trigger entries@[j], cat[j]]
                0 <= j < cat.len() implies entries@[j].0@ == cat[j].0@
                && entries@[j].1@ == cat[j].1@ by {
                if j < l.len() {
                    assert(cat[j] == l[j]);
                    assert(l[j] == self.command_local@[j]);
                } else if j < l.len() + g.len() {
                    assert(cat[j] == g[j - l.len()]);
                    assert(g[j - l.len()] == self.config_global@[j - l.len()]);
                } else {
                    assert(cat[j] == c[j - l.len() - g.len()]);
                    assert(c[j - l.len() - g.len()] == self.cli_positional@[j - l.len() - g.len()]);
                }
            }
            assert forall|k: Seq<char>|
                #[trigger] ctx_lookup(entries@, k) == self.spec_merged_lookup(k) by {
                lemma_ctx_lookup_congruent(entries@, cat, k);
                lemma_ctx_lookup_concat(l + g, c, k);
                lemma_ctx_lookup_concat(l, g, k);
            }
        }
        FlatContext { entries }
    }
}

/// Merges three layers, given lowest precedence first, into one flat
/// context that answers every lookup as the concatenation
/// `(local + global) + cli` does: command-local entries shadow
/// config-global ones, which shadow cli-positional ones.
pub fn merge_layers(
    cli: &Vec<(String, String)>,
    global: &Vec<(String, String)>,
    local: &Vec<(String, String)>,
) -> (r: FlatContext)
    ensures
        forall|k: Seq<char>| #[trigger] ctx_lookup(r.entries@, k) == ctx_lookup(
            (local@ + global@) + cli@,
            k,
        ),
{
    let cm = ContextMap {
        cli_positional: clone_entries(cli),
        config_global: clone_entries(global),
        command_local: clone_entries(local),
    };
    let flat = cm.do_merge();
    proof {
        assert forall|k: Seq<char>| #[trigger] ctx_lookup(flat.entries@, k) == ctx_lookup(
            (local@ + global@) + cli@,
            k,
        ) by {
            assert(flat.spec_lookup(k) == cm.spec_merged_lookup(k));
            assert(ctx_lookup(cm.command_local@, k) == ctx_lookup(local@, k));
            assert(ctx_lookup(cm.config_global@, k) == ctx_lookup(global@, k));
            assert(ctx_lookup(cm.cli_positional@, k) == ctx_lookup(cli@, k));
            lemma_ctx_lookup_concat(local@ + global@, cli@, k);
            lemma_ctx_lookup_concat(local@, global@, k);
        }
    }
    flat
}

} // verus!
