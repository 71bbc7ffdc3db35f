//! The three command implementations' validation and decisions.
//!
//! Each command kind validates the processed parameters into its own typed
//! parameter struct: required fields become non-optional, and a validation
//! failure names every missing required field, not just the first. The
//! overwrite decision and the rendering of a template command's file
//! contents stand here too; the file and terminal I/O around them live
//! outside the library.

use vstd::prelude::*;

use crate::context::merge_layers;
use crate::params::ProcessedCommandParams;
use crate::registry::{copy_name, search_replace_name, template_name};
use crate::render::{spec_render, RenderOutcome, TemplateError};

verus! {

/// A required parameter field.
#[derive(Clone, Copy, PartialEq, Eq, Structural, Debug)]
pub enum ParamField {
    Source,
    Destination,
    Search,
    Replace,
}

/// Validation failure: every missing required field, in field order.
#[derive(Debug)]
pub struct ValidationError {
    pub missing: Vec<ParamField>,
}

/// The required fields among `source` and `destination` that `p` lacks.
pub open spec fn spec_missing_source_destination(p: ProcessedCommandParams) -> Seq<ParamField> {
    (if p.source is None {
        seq![ParamField::Source]
    } else {
        Seq::empty()
    }) + (if p.destination is None {
        seq![ParamField::Destination]
    } else {
        Seq::empty()
    })
}

/// The required fields among `search` and `replace` that `p` lacks.
pub open spec fn spec_missing_search_replace(p: ProcessedCommandParams) -> Seq<ParamField> {
    (if p.search is None {
        seq![ParamField::Search]
    } else {
        Seq::empty()
    }) + (if p.replace is None {
        seq![ParamField::Replace]
    } else {
        Seq::empty()
    })
}

/// What to do about a destination before writing it.
#[derive(Clone, Copy, PartialEq, Eq, Structural, Debug)]
pub enum WriteAction {
    /// Write the destination.
    Write,
    /// Leave the destination untouched.
    Skip,
    /// Ask for confirmation before writing.
    Prompt,
}

/// The overwrite decision: a fresh destination is written outright; an
/// existing one follows the `overwrite` flag, and without a flag the caller
/// must prompt.
pub open spec fn spec_overwrite_action(overwrite: Option<bool>, destination_exists: bool) -> WriteAction {
    if !destination_exists {
        WriteAction::Write
    } else {
        match overwrite {
            Some(true) => WriteAction::Write,
            Some(false) => WriteAction::Skip,
            None => WriteAction::Prompt,
        }
    }
}

/// Decides what to do about a destination, per `spec_overwrite_action`.
pub fn overwrite_action(overwrite: Option<bool>, destination_exists: bool) -> (r: WriteAction)
    ensures
        r == spec_overwrite_action(overwrite, destination_exists),
{
    if !destination_exists {
        WriteAction::Write
    } else {
        match overwrite {
            Some(true) => WriteAction::Write,
            Some(false) => WriteAction::Skip,
            None => WriteAction::Prompt,
        }
    }
}

/// Typed parameters of the template command.
pub struct TemplateParams {
    pub source: String,
    pub destination: String,
    pub overwrite: Option<bool>,
    pub context: Option<Vec<(String, String)>>,
}

/// View-level equality of two entry sequences.
pub open spec fn spec_entries_eq(v: Seq<(String, String)>, w: Seq<(String, String)>) -> bool
    decreases v.len(),
{
    if v.len() != w.len() {
        false
    } else if v.len() == 0 {
        true
    } else {
        v[0].0@ == w[0].0@ && v[0].1@ == w[0].1@ && spec_entries_eq(v.skip(1), w.skip(1))
    }
}

/// Entry sequences are equal exactly when their lengths agree and every
/// entry agrees view by view.
pub proof fn lemma_entries_eq_iff_pointwise(v: Seq<(String, String)>, w: Seq<(String, String)>)
    ensures
        spec_entries_eq(v, w) <==> (v.len() == w.len() && (forall|j: int|
            #![trigger v[j], w[j]]
            0 <= j < v.len() ==> v[j].0@ == w[j].0@ && v[j].1@ == w[j].1@)),
    decreases v.len(),
{
    if v.len() != w.len() {
    } else if v.len() == 0 {
    } else {
        lemma_entries_eq_iff_pointwise(v.skip(1), w.skip(1));
        if spec_entries_eq(v, w) {
            assert forall|j: int| #![trigger v[j], w[j]] 0 <= j < v.len() implies v[j].0@
                == w[j].0@ && v[j].1@ == w[j].1@ by {
                if j > 0 {
                    assert(v.skip(1)[j - 1] == v[j]);
                    assert(w.skip(1)[j - 1] == w[j]);
                }
            }
        } else {
            if v[0].0@ == w[0].0@ && v[0].1@ == w[0].1@ {
                let j = choose|j: int|
                    #![trigger v.skip(1)[j], w.skip(1)[j]]
                    0 <= j < v.skip(1).len() && !(v.skip(1)[j].0@ == w.skip(1)[j].0@ && v.skip(
                        1,
                    )[j].1@ == w.skip(1)[j].1@);
                assert(v.skip(1)[j] == v[j + 1]);
                assert(w.skip(1)[j] == w[j + 1]);
                assert(!(v[j + 1].0@ == w[j + 1].0@ && v[j + 1].1@ == w[j + 1].1@));
            }
        }
    }
}

/// View-level equality of two optional context vectors.
pub open spec fn spec_ctx_opt_eq(
    a: Option<Vec<(String, String)>>,
    b: Option<Vec<(String, String)>>,
) -> bool {
    match (a, b) {
        (None, None) => true,
        (Some(v), Some(w)) => spec_entries_eq(v@, w@),
        _ => false,
    }
}

impl TemplateParams {
    /// The source path.
    pub fn source(&self) -> (r: String)
        ensures
            r@ == self.source@,
    {
        self.source.clone()
    }

    /// The destination path.
    pub fn destination(&self) -> (r: String)
        ensures
            r@ == self.destination@,
    {
        self.destination.clone()
    }

    /// The overwrite flag, as authored.
    pub fn overwrite(&self) -> (r: Option<bool>)
        ensures
            r == self.overwrite,
    {
        self.overwrite
    }
}

impl PartialEq for TemplateParams {
    fn eq(&self, other: &Self) -> (r: bool) {
        if !(self.source == other.source) {
            return false;
        }
        if !(self.destination == other.destination) {
            return false;
        }
        let ow_eq = match (self.overwrite, other.overwrite) {
            (None, None) => true,
            (Some(a), Some(b)) => a == b,
            _ => false,
        };
        if !ow_eq {
            return false;
        }
        match (&self.context, &other.context) {
            (None, None) => true,
            (Some(v), Some(w)) => {
                proof {
                    assert(self.context == Some(*v));
                    assert(other.context == Some(*w));
                }
                let n = v.len();
                if n != w.len() {
                    proof {
                        lemma_entries_eq_iff_pointwise(v@, w@);
                    }
                    return false;
                }
                let mut i: usize = 0;
                while i < n
                    invariant
                        0 <= i <= n,
                        n == v@.len(),
                        n == w@.len(),
                        self.context == Some(*v),
                        other.context == Some(*w),
                        forall|j: int|
                            #![trigger v@[j], w@[j]]
                            0 <= j < i ==> v@[j].0@ == w@[j].0@ && v@[j].1@ == w@[j].1@,
                    decreases n - i,
                {
                    if !(v[i].0 == w[i].0) {
                        proof {
                            assert(v@[i as int].0@ != w@[i as int].0@);
                            lemma_entries_eq_iff_pointwise(v@, w@);
                            assert(!spec_ctx_opt_eq(self.context, other.context));
                        }
                        return false;
                    }
                    if !(v[i].1 == w[i].1) {
                        proof {
                            assert(v@[i as int].1@ != w@[i as int].1@);
                            lemma_entries_eq_iff_pointwise(v@, w@);
                            assert(!spec_ctx_opt_eq(self.context, other.context));
                        }
                        return false;
                    }
                    i = i + 1;
                }
                proof {
                    lemma_entries_eq_iff_pointwise(v@, w@);
                }
                true
            },
            _ => false,
        }
    }
}

impl vstd::std_specs::cmp::PartialEqSpecImpl for TemplateParams {
    open spec fn obeys_eq_spec() -> bool {
        true
    }

    open spec fn eq_spec(&self, other: &Self) -> bool {
        &&& self.source@ == other.source@
        &&& self.destination@ == other.destination@
        &&& self.overwrite == other.overwrite
        &&& spec_ctx_opt_eq(self.context, other.context)
    }
}

/// The template command: renders a source file against the entry's own
/// context and writes the result to the destination.
pub struct TemplateCommand {}

impl TemplateCommand {
    /// A fresh template command.
    pub fn new() -> (r: TemplateCommand) {
        TemplateCommand {  }
    }

    /// Validates processed parameters: `source` and `destination` are
    /// required; `overwrite` and `context` pass through as authored. A
    /// failure names every missing required field.
    pub fn from(&self, p: ProcessedCommandParams) -> (r: Result<TemplateParams, ValidationError>)
        ensures
            (r is Ok) <==> (p.source is Some && p.destination is Some),
            r matches Ok(t) ==> ({
                &&& p.source matches Some(s) && t.source == s
                &&& p.destination matches Some(d) && t.destination == d
                &&& t.overwrite == p.overwrite
                &&& t.context == p.context
            }),
            r matches Err(e) ==> e.missing@ == spec_missing_source_destination(p),
    {
        let ProcessedCommandParams { source, destination, overwrite, context, .. } = p;
        match (source, destination) {
            (Some(s), Some(d)) => Ok(
                TemplateParams { source: s, destination: d, overwrite, context },
            ),
            (sopt, dopt) => {
                let mut missing: Vec<ParamField> = Vec::new();
                if sopt.is_none() {
                    missing.push(ParamField::Source);
                }
                if dopt.is_none() {
                    missing.push(ParamField::Destination);
                }
                proof {
                    assert(missing@ =~= spec_missing_source_destination(p));
                }
                Err(ValidationError { missing })
            },
        }
    }

    /// The name of this command's kind.
    pub fn name_inner(&self) -> (r: String)
        ensures
            r@ == template_name(),
    {
        proof {
            reveal_strlit("template");
            assert("template"@ =~= template_name());
        }
        "template".to_owned()
    }

    /// The output the template command writes: the source file's contents,
    /// rendered against the merge of the command-local, config-global and
    /// cli-positional context layers, command-local winning.
    pub fn rendered_contents(
        &self,
        params: &TemplateParams,
        contents: &str,
        config_global: &Vec<(String, String)>,
        cli_positional: &Vec<(String, String)>,
    ) -> (r: Result<String, TemplateError>)
        ensures
            ({
                let local = match params.context {
                    Some(v) => v@,
                    None => Seq::empty(),
                };
                let c = (local + config_global@) + cli_positional@;
                match spec_render(contents@, c) {
                    RenderOutcome::Rendered(s) => r matches Ok(out) && out@ == s,
                    RenderOutcome::Undefined(k) => r matches Err(
                        TemplateError::UndefinedVariable(key),
                    ) && key@ == k,
                    RenderOutcome::Unclosed => r matches Err(TemplateError::UnclosedPlaceholder),
                }
            }),
    {
        let empty: Vec<(String, String)> = Vec::new();
        let local_ref: &Vec<(String, String)> = match &params.context {
            Some(v) => v,
            None => &empty,
        };
        let ctx = merge_layers(cli_positional, config_global, local_ref);
        proof {
            let local: Seq<(String, String)> = if params.context is Some {
                params.context->Some_0@
            } else {
                Seq::empty()
            };
            assert(local_ref@ =~= local);
            let c = (local + config_global@) + cli_positional@;
            assert forall|k: Seq<char>| #[trigger] crate::context::ctx_lookup(ctx.entries@, k)
                == crate::context::ctx_lookup(c, k) by {
                assert(crate::context::ctx_lookup(ctx.entries@, k) == crate::context::ctx_lookup(
                    (local_ref@ + config_global@) + cli_positional@,
                    k,
                ));
            }
            crate::render::lemma_render_lookup_congruent(contents@, 0, ctx.entries@, c);
        }
        crate::render::render(contents, &ctx)
    }
}

/// Typed parameters of the copy command.
pub struct CopyParams {
    pub source: String,
    pub destination: String,
    pub overwrite: Option<bool>,
}

/// The copy command: copies the source file to the destination.
pub struct CopyCommand {}

impl CopyCommand {
    /// A fresh copy command.
    pub fn new() -> (r: CopyCommand) {
        CopyCommand {  }
    }

    /// Validates processed parameters: `source` and `destination` are
    /// required; `overwrite` passes through as authored. A failure names
    /// every missing required field.
    pub fn from(&self, p: ProcessedCommandParams) -> (r: Result<CopyParams, ValidationError>)
        ensures
            (r is Ok) <==> (p.source is Some && p.destination is Some),
            r matches Ok(t) ==> ({
                &&& p.source matches Some(s) && t.source == s
                &&& p.destination matches Some(d) && t.destination == d
                &&& t.overwrite == p.overwrite
            }),
            r matches Err(e) ==> e.missing@ == spec_missing_source_destination(p),
    {
        let ProcessedCommandParams { source, destination, overwrite, .. } = p;
        match (source, destination) {
            (Some(s), Some(d)) => Ok(CopyParams { source: s, destination: d, overwrite }),
            (sopt, dopt) => {
                let mut missing: Vec<ParamField> = Vec::new();
                if sopt.is_none() {
                    missing.push(ParamField::Source);
                }
                if dopt.is_none() {
                    missing.push(ParamField::Destination);
                }
                proof {
                    assert(missing@ =~= spec_missing_source_destination(p));
                }
                Err(ValidationError { missing })
            },
        }
    }

    /// The name of this command's kind.
    pub fn name_inner(&self) -> (r: String)
        ensures
            r@ == copy_name(),
    {
        proof {
            reveal_strlit("copy");
            assert("copy"@ =~= copy_name());
        }
        "copy".to_owned()
    }
}

/// Typed parameters of the search-and-replace command.
pub struct SearchReplaceParams {
    pub search: String,
    pub replace: String,
    pub destination: Option<String>,
}

/// The search-and-replace command: replaces text in the destination file.
pub struct SearchReplaceCommand {}

impl SearchReplaceCommand {
    /// A fresh search-and-replace command.
    pub fn new() -> (r: SearchReplaceCommand) {
        SearchReplaceCommand {  }
    }

    /// Validates processed parameters: `search` and `replace` are required;
    /// `destination` passes through as authored. A failure names every
    /// missing required field.
    pub fn from(&self, p: ProcessedCommandParams) -> (r: Result<
        SearchReplaceParams,
        ValidationError,
    >)
        ensures
            (r is Ok) <==> (p.search is Some && p.replace is Some),
            r matches Ok(t) ==> ({
                &&& p.search matches Some(s) && t.search == s
                &&& p.replace matches Some(rp) && t.replace == rp
                &&& t.destination == p.destination
            }),
            r matches Err(e) ==> e.missing@ == spec_missing_search_replace(p),
    {
        let ProcessedCommandParams { destination, search, replace, .. } = p;
        match (search, replace) {
            (Some(s), Some(rp)) => Ok(
                SearchReplaceParams { search: s, replace: rp, destination },
            ),
            (sopt, ropt) => {
                let mut missing: Vec<ParamField> = Vec::new();
                if sopt.is_none() {
                    missing.push(ParamField::Search);
                }
                if ropt.is_none() {
                    missing.push(ParamField::Replace);
                }
                proof {
                    assert(missing@ =~= spec_missing_search_replace(p));
                }
                Err(ValidationError { missing })
            },
        }
    }

    /// The name of this command's kind.
    pub fn name_inner(&self) -> (r: String)
        ensures
            r@ == search_replace_name(),
    {
        proof {
            reveal_strlit("search_replace");
            assert("search_replace"@ =~= search_replace_name());
        }
        "search_replace".to_owned()
    }
}

} // verus!
