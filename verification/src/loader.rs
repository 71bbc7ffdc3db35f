//! The config loader: per-entry parameter processing and the pipeline.
//!
//! For each command entry, in document order: resolve the entry's kind,
//! merge the three context layers, render every string parameter through
//! the template interpreter, resolve the `source` path against the config
//! file's directory (while `destination` passes through as authored), and
//! validate the result into the kind's typed parameters. The first failing
//! entry aborts the run; no partial command list is returned.

use vstd::prelude::*;

use crate::commands::{
    CopyCommand, CopyParams, ParamField, SearchReplaceCommand, SearchReplaceParams,
    TemplateCommand, TemplateParams,
};
use crate::context::{clone_entries, ctx_lookup, merge_layers};
use crate::errors::{spec_dec, dec_str, BrixError, EntryError};
use crate::params::{
    join_path, render_params, spec_join, spec_params_first_failure, spec_params_ok,
    spec_params_rendered, RawCommandParams, ProcessedCommandParams,
};
use crate::registry::{
    copy_name, resolve, search_replace_name, spec_lower, spec_suggestion, template_name,
    CommandKind,
};
use crate::render::{error_matches, spec_render, RenderOutcome};

verus! {

/// One config entry: a command kind and its raw parameters.
pub struct CommandEntry {
    pub kind: String,
    pub params: RawCommandParams,
}

impl CommandEntry {
    /// Builds the entry at the given 1-based document position from the
    /// key/params pairs of one config mapping. Exactly one key — the
    /// command kind — is allowed; zero or several keys are a parse error
    /// naming the position.
    pub fn from_pairs(position: usize, pairs: Vec<(String, RawCommandParams)>) -> (r: Result<
        CommandEntry,
        BrixError,
    >)
        ensures
            (r is Ok) <==> pairs@.len() == 1,
            r matches Ok(e) ==> e.kind == pairs@[0].0 && e.params == pairs@[0].1,
            r matches Err(err) ==> (err matches BrixError::ConfigParse(s) && s@ == "config entry "@
                + spec_dec(position as nat) + " must have exactly one key"@),
    {
        if pairs.len() == 1 {
            let mut pairs = pairs;
            match pairs.pop() {
                Some((kind, params)) => Ok(CommandEntry { kind, params }),
                None => Err(BrixError::ConfigParse(Self::one_key_message(position))),
            }
        } else {
            Err(BrixError::ConfigParse(Self::one_key_message(position)))
        }
    }

    /// The parse error's message for a mapping without a single key.
    fn one_key_message(position: usize) -> (r: String)
        ensures
            r@ == "config entry "@ + spec_dec(position as nat)
                + " must have exactly one key"@,
    {
        let mut m: String = "config entry ".to_owned();
        let pos = dec_str(position);
        m.append(pos.as_str());
        m.append(" must have exactly one key");
        m
    }
}

/// The parsed configuration document: an ordered list of command entries
/// and the optional global context layer.
pub struct RawConfig {
    pub commands: Vec<CommandEntry>,
    pub context: Option<Vec<(String, String)>>,
}

/// One resolved command: the implementation the kind names, carrying its
/// validated, typed parameters.
pub enum ResolvedCommand {
    Copy(CopyParams),
    SearchReplace(SearchReplaceParams),
    Template(TemplateParams),
}

/// The ordered, ready-to-execute command list.
pub type CommandList = Vec<ResolvedCommand>;

/// The operation a kind string names, case-insensitively, if any.
pub open spec fn spec_kind_of(k: Seq<char>) -> Option<CommandKind> {
    if spec_lower(k) == copy_name() {
        Some(CommandKind::Copy)
    } else if spec_lower(k) == search_replace_name() {
        Some(CommandKind::SearchReplace)
    } else if spec_lower(k) == template_name() {
        Some(CommandKind::Template)
    } else {
        None
    }
}

/// The required fields of `kind` that `p` lacks, in field order.
pub open spec fn spec_required_missing(kind: CommandKind, p: RawCommandParams) -> Seq<ParamField> {
    match kind {
        CommandKind::Copy | CommandKind::Template => (if p.source is None {
            seq![ParamField::Source]
        } else {
            Seq::empty()
        }) + (if p.destination is None {
            seq![ParamField::Destination]
        } else {
            Seq::empty()
        }),
        CommandKind::SearchReplace => (if p.search is None {
            seq![ParamField::Search]
        } else {
            Seq::empty()
        }) + (if p.replace is None {
            seq![ParamField::Replace]
        } else {
            Seq::empty()
        }),
    }
}

/// The context an entry's parameters render against: the three layers
/// concatenated in precedence order, command-local first.
pub open spec fn spec_entry_ctx(
    entry: CommandEntry,
    config: RawConfig,
    cli: Seq<(String, String)>,
) -> Seq<(String, String)> {
    ((match entry.params.context {
        Some(v) => v@,
        None => Seq::empty(),
    }) + (match config.context {
        Some(v) => v@,
        None => Seq::empty(),
    })) + cli
}

/// The merge-precedence law as it reaches rendering: the context every
/// parameter of an entry renders against answers each key from the
/// highest-precedence layer defining it — the entry's own context over the
/// config's global context over the cli-positional layer — with absent
/// layers as empty mappings, and a key unique to one layer keeps that
/// layer's value. Building this context never fails.
pub proof fn lemma_entry_ctx_precedence(
    entry: CommandEntry,
    config: RawConfig,
    cli: Seq<(String, String)>,
    k: Seq<char>,
)
    ensures
        ctx_lookup(spec_entry_ctx(entry, config, cli), k) == ({
            let local = match entry.params.context {
                Some(v) => v@,
                None => Seq::empty(),
            };
            let global = match config.context {
                Some(v) => v@,
                None => Seq::empty(),
            };
            if ctx_lookup(local, k) is Some {
                ctx_lookup(local, k)
            } else if ctx_lookup(global, k) is Some {
                ctx_lookup(global, k)
            } else {
                ctx_lookup(cli, k)
            }
        }),
{
    let local: Seq<(String, String)> = match entry.params.context {
        Some(v) => v@,
        None => Seq::empty(),
    };
    let global: Seq<(String, String)> = match config.context {
        Some(v) => v@,
        None => Seq::empty(),
    };
    crate::context::lemma_ctx_lookup_concat(local + global, cli, k);
    crate::context::lemma_ctx_lookup_concat(local, global, k);
}

/// The merge-precedence law surfaced through the pipeline: a parameter that
/// is exactly one placeholder around `k` — no `}` in `k`, no space at its
/// ends — renders, in the entry's context, to the value of `k` from the
/// highest-precedence layer defining it, and fails as undefined exactly
/// when no layer defines it. With `process`'s contract this fixes the
/// processed field of every such parameter.
pub proof fn lemma_entry_placeholder_precedence(
    entry: CommandEntry,
    config: RawConfig,
    cli: Seq<(String, String)>,
    k: Seq<char>,
)
    requires
        forall|m: int| 0 <= m < k.len() ==> #[trigger] k[m] != '}',
        k.len() > 0 ==> (k[0] != ' ' && k[k.len() - 1] != ' '),
    ensures
        spec_render(seq!['{', '{'] + k + seq!['}', '}'], spec_entry_ctx(entry, config, cli)) == ({
            let local = match entry.params.context {
                Some(v) => v@,
                None => Seq::empty(),
            };
            let global = match config.context {
                Some(v) => v@,
                None => Seq::empty(),
            };
            let value = if ctx_lookup(local, k) is Some {
                ctx_lookup(local, k)
            } else if ctx_lookup(global, k) is Some {
                ctx_lookup(global, k)
            } else {
                ctx_lookup(cli, k)
            };
            match value {
                Some(v) => RenderOutcome::Rendered(v),
                None => RenderOutcome::Undefined(k),
            }
        }),
{
    crate::render::lemma_render_single_placeholder(k, spec_entry_ctx(entry, config, cli));
    lemma_entry_ctx_precedence(entry, config, cli, k);
}

/// Drives the pipeline over a parsed configuration.
pub struct ConfigLoader {
    /// The cli-positional context layer, from key=value arguments.
    pub cli_config: Vec<(String, String)>,
    /// The directory holding the config document, against which `source`
    /// paths resolve.
    pub config_dir: Option<String>,
}

impl ConfigLoader {
    /// Whether processing this entry fails: an unknown kind, a parameter
    /// that does not render, or a missing required field.
    pub open spec fn spec_entry_fails(&self, config: RawConfig, entry: CommandEntry) -> bool {
        let c = spec_entry_ctx(entry, config, self.cli_config@);
        ||| spec_kind_of(entry.kind@) is None
        ||| !spec_params_ok(entry.params, c)
        ||| spec_required_missing(spec_kind_of(entry.kind@)->Some_0, entry.params).len() > 0
    }

    /// How a resolved command must relate to its entry: the kind matches,
    /// every string parameter is the rendering of the entry's, `source` is
    /// resolved against the config directory, `destination` stands as
    /// authored, and `overwrite` and the local context pass through.
    pub open spec fn spec_entry_command(
        &self,
        config: RawConfig,
        entry: CommandEntry,
        rc: ResolvedCommand,
    ) -> bool {
        let c = spec_entry_ctx(entry, config, self.cli_config@);
        let dir = self.config_dir->Some_0@;
        match rc {
            ResolvedCommand::Copy(p) => {
                &&& spec_kind_of(entry.kind@) == Some(CommandKind::Copy)
                &&& match entry.params.source {
                    Some(s) => spec_render(s@, c) is Rendered && p.source@ == spec_join(
                        dir,
                        spec_render(s@, c)->Rendered_0,
                    ),
                    None => false,
                }
                &&& match entry.params.destination {
                    Some(d) => spec_render(d@, c) == RenderOutcome::Rendered(p.destination@),
                    None => false,
                }
                &&& p.overwrite == entry.params.overwrite
            },
            ResolvedCommand::SearchReplace(p) => {
                &&& spec_kind_of(entry.kind@) == Some(CommandKind::SearchReplace)
                &&& match entry.params.search {
                    Some(s) => spec_render(s@, c) == RenderOutcome::Rendered(p.search@),
                    None => false,
                }
                &&& match entry.params.replace {
                    Some(s) => spec_render(s@, c) == RenderOutcome::Rendered(p.replace@),
                    None => false,
                }
                &&& match entry.params.destination {
                    Some(d) => p.destination matches Some(t) && spec_render(d@, c)
                        == RenderOutcome::Rendered(t@),
                    None => p.destination is None,
                }
            },
            ResolvedCommand::Template(p) => {
                &&& spec_kind_of(entry.kind@) == Some(CommandKind::Template)
                &&& match entry.params.source {
                    Some(s) => spec_render(s@, c) is Rendered && p.source@ == spec_join(
                        dir,
                        spec_render(s@, c)->Rendered_0,
                    ),
                    None => false,
                }
                &&& match entry.params.destination {
                    Some(d) => spec_render(d@, c) == RenderOutcome::Rendered(p.destination@),
                    None => false,
                }
                &&& p.overwrite == entry.params.overwrite
                &&& match entry.params.context {
                    Some(v) => p.context matches Some(w) && w@.len() == v@.len() && (forall|i: int|
                        0 <= i < v@.len() ==> (#[trigger] spec_render(v@[i].0@, c))
                            == RenderOutcome::Rendered(w@[i].0@) && spec_render(v@[i].1@, c)
                            == RenderOutcome::Rendered(w@[i].1@)),
                    None => p.context is None,
                }
            },
        }
    }

    /// How the error of a failing entry must read: an unknown kind names
    /// the kind and carries the suggestion; a rendering failure carries the
    /// first failing field's error; a validation failure names every
    /// missing required field.
    pub open spec fn spec_entry_error(
        &self,
        config: RawConfig,
        entry: CommandEntry,
        e: BrixError,
    ) -> bool {
        let c = spec_entry_ctx(entry, config, self.cli_config@);
        if spec_kind_of(entry.kind@) is None {
            e matches BrixError::CommandNotFound(nf) && nf.kind@ == entry.kind@ && (match (
                nf.suggestion,
                spec_suggestion(entry.kind@),
            ) {
                (Some(s), Some(ss)) => s@ == ss,
                (None, None) => true,
                _ => false,
            })
        } else if !spec_params_ok(entry.params, c) {
            e matches BrixError::Template(te) && error_matches(
                te,
                spec_params_first_failure(entry.params, c),
            )
        } else {
            e matches BrixError::Validation(ve) && ve.missing@ == spec_required_missing(
                spec_kind_of(entry.kind@)->Some_0,
                entry.params,
            )
        }
    }

    /// Resolves rendered parameters into processed ones: `source` is joined
    /// onto the config directory, every other field passes through; the
    /// asymmetry between `source` and `destination` is deliberate.
    pub fn create_processed_args(&self, raw: &RawCommandParams) -> (r: Result<
        ProcessedCommandParams,
        BrixError,
    >)
        requires
            self.config_dir is Some,
        ensures
            r matches Ok(p) && ({
                &&& match (raw.source, p.source) {
                    (None, None) => true,
                    (Some(s), Some(t)) => t@ == spec_join(self.config_dir->Some_0@, s@),
                    _ => false,
                }
                &&& match (raw.destination, p.destination) {
                    (None, None) => true,
                    (Some(s), Some(t)) => t@ == s@,
                    _ => false,
                }
                &&& p.overwrite == raw.overwrite
                &&& match (raw.search, p.search) {
                    (None, None) => true,
                    (Some(s), Some(t)) => t@ == s@,
                    _ => false,
                }
                &&& match (raw.replace, p.replace) {
                    (None, None) => true,
                    (Some(s), Some(t)) => t@ == s@,
                    _ => false,
                }
                &&& match (raw.context, p.context) {
                    (None, None) => true,
                    (Some(v), Some(w)) => w@.len() == v@.len() && (forall|j: int|
                        #![trigger w@[j]]
                        0 <= j < v@.len() ==> w@[j].0@ == v@[j].0@ && w@[j].1@ == v@[j].1@),
                    _ => false,
                }
            }),
    {
        let config = self.config_dir.as_ref().unwrap();
        let source = match &raw.source {
            Some(s) => Some(join_path(config.as_str(), s.as_str())),
            None => None,
        };
        let destination = match &raw.destination {
            Some(d) => Some(d.clone()),
            None => None,
        };
        let search = match &raw.search {
            Some(s) => Some(s.clone()),
            None => None,
        };
        let replace = match &raw.replace {
            Some(s) => Some(s.clone()),
            None => None,
        };
        let context = match &raw.context {
            Some(v) => Some(clone_entries(v)),
            None => None,
        };
        Ok(
            ProcessedCommandParams {
                source,
                destination,
                overwrite: raw.overwrite,
                search,
                replace,
                context,
            },
        )
    }

    /// Processes every entry of `config`, in document order, into the
    /// command list. The first failing entry aborts the run with its error,
    /// tied to the entry's position and kind; processing succeeds exactly
    /// when every entry processes.
    pub fn process(&self, config: &RawConfig) -> (r: Result<CommandList, EntryError>)
        requires
            self.config_dir is Some,
        ensures
            (r is Ok) <==> (forall|i: int|
                0 <= i < config.commands@.len() ==> !self.spec_entry_fails(
                    *config,
                    #[trigger] config.commands@[i],
                )),
            r matches Ok(list) ==> list@.len() == config.commands@.len() && (forall|i: int|
                0 <= i < list@.len() ==> self.spec_entry_command(
                    *config,
                    config.commands@[i],
                    #[trigger] list@[i],
                )),
            r matches Err(e) ==> exists|i: int|
                0 <= i < config.commands@.len() && #[trigger] self.spec_entry_fails(
                    *config,
                    config.commands@[i],
                ) && (forall|j: int|
                    0 <= j < i ==> !self.spec_entry_fails(
                        *config,
                        #[trigger] config.commands@[j],
                    )) && e.position == i + 1 && e.kind@ == config.commands@[i].kind@
                    && self.spec_entry_error(*config, config.commands@[i], e.error),
    {
        let n = config.commands.len();
        let mut list: Vec<ResolvedCommand> = Vec::new();
        let mut i: usize = 0;
        while i < n
            invariant
                0 <= i <= n,
                n == config.commands@.len(),
                self.config_dir is Some,
                list@.len() == i,
                forall|j: int|
                    0 <= j < i ==> !self.spec_entry_fails(
                        *config,
                        #[trigger] config.commands@[j],
                    ),
                forall|j: int|
                    0 <= j < i ==> self.spec_entry_command(
                        *config,
                        config.commands@[j],
                        #[trigger] list@[j],
                    ),
            decreases n - i,
        {
            let entry = &config.commands[i];
            let ghost c = spec_entry_ctx(*entry, *config, self.cli_config@);

            // Resolve the command kind.
            let kind = match resolve(entry.kind.as_str()) {
                Ok(k) => k,
                Err(nf) => {
                    let err = BrixError::CommandNotFound(nf);
                    proof {
                        assert(*entry == config.commands@[i as int]);
                        assert(spec_kind_of(entry.kind@) is None);
                        assert(self.spec_entry_fails(*config, config.commands@[i as int]));
                        assert(self.spec_entry_error(*config, config.commands@[i as int], err));
                    }
                    return Err(EntryError { position: i + 1, kind: entry.kind.clone(), error: err });
                },
            };

            // Build and merge the three context layers.
            let empty_layer: Vec<(String, String)> = Vec::new();
            let local_ref: &Vec<(String, String)> = match &entry.params.context {
                Some(v) => v,
                None => &empty_layer,
            };
            let global_ref: &Vec<(String, String)> = match &config.context {
                Some(v) => v,
                None => &empty_layer,
            };
            let flat = merge_layers(&self.cli_config, global_ref, local_ref);
            proof {
                let l0: Seq<(String, String)> = if entry.params.context is Some {
                    entry.params.context->Some_0@
                } else {
                    Seq::empty()
                };
                let g0: Seq<(String, String)> = if config.context is Some {
                    config.context->Some_0@
                } else {
                    Seq::empty()
                };
                assert(local_ref@ =~= l0);
                assert(global_ref@ =~= g0);
                assert(c == (l0 + g0) + self.cli_config@);
                assert forall|k: Seq<char>| #[trigger] ctx_lookup(flat.entries@, k) == ctx_lookup(
                    c,
                    k,
                ) by {
                    assert(ctx_lookup(flat.entries@, k) == ctx_lookup(
                        (local_ref@ + global_ref@) + self.cli_config@,
                        k,
                    ));
                }
                crate::params::lemma_params_congruent(entry.params, flat.entries@, c);
            }

            // Render every string parameter against the merged context.
            let rendered = match render_params(&entry.params, &flat) {
                Ok(q) => q,
                Err(te) => {
                    let err = BrixError::Template(te);
                    proof {
                        assert(*entry == config.commands@[i as int]);
                        assert(!spec_params_ok(entry.params, c));
                        assert(self.spec_entry_fails(*config, config.commands@[i as int]));
                        assert(self.spec_entry_error(*config, config.commands@[i as int], err));
                    }
                    return Err(EntryError { position: i + 1, kind: entry.kind.clone(), error: err });
                },
            };
            proof {
                assert(spec_params_rendered(entry.params, rendered, c));
            }

            // Resolve paths.
            let processed = match self.create_processed_args(&rendered) {
                Ok(a) => a,
                Err(e) => {
                    return Err(EntryError { position: i + 1, kind: entry.kind.clone(), error: e });
                },
            };

            // Validate into the kind's typed parameters.
            let rc = match kind {
                CommandKind::Copy => match CopyCommand::new().from(processed) {
                    Ok(p) => ResolvedCommand::Copy(p),
                    Err(ve) => {
                        proof {
                            assert(ve.missing@ =~= spec_required_missing(
                                CommandKind::Copy,
                                entry.params,
                            ));
                        }
                        let err = BrixError::Validation(ve);
                        proof {
                            assert(*entry == config.commands@[i as int]);
                            assert(spec_kind_of(entry.kind@) == Some(CommandKind::Copy));
                            assert(self.spec_entry_fails(*config, config.commands@[i as int]));
                            assert(self.spec_entry_error(*config, config.commands@[i as int], err));
                        }
                        return Err(
                            EntryError { position: i + 1, kind: entry.kind.clone(), error: err },
                        );
                    },
                },
                CommandKind::SearchReplace => match SearchReplaceCommand::new().from(processed) {
                    Ok(p) => ResolvedCommand::SearchReplace(p),
                    Err(ve) => {
                        proof {
                            assert(ve.missing@ =~= spec_required_missing(
                                CommandKind::SearchReplace,
                                entry.params,
                            ));
                        }
                        let err = BrixError::Validation(ve);
                        proof {
                            assert(*entry == config.commands@[i as int]);
                            assert(spec_kind_of(entry.kind@) == Some(CommandKind::SearchReplace));
                            assert(self.spec_entry_fails(*config, config.commands@[i as int]));
                            assert(self.spec_entry_error(*config, config.commands@[i as int], err));
                        }
                        return Err(
                            EntryError { position: i + 1, kind: entry.kind.clone(), error: err },
                        );
                    },
                },
                CommandKind::Template => match TemplateCommand::new().from(processed) {
                    Ok(p) => ResolvedCommand::Template(p),
                    Err(ve) => {
                        proof {
                            assert(ve.missing@ =~= spec_required_missing(
                                CommandKind::Template,
                                entry.params,
                            ));
                        }
                        let err = BrixError::Validation(ve);
                        proof {
                            assert(*entry == config.commands@[i as int]);
                            assert(spec_kind_of(entry.kind@) == Some(CommandKind::Template));
                            assert(self.spec_entry_fails(*config, config.commands@[i as int]));
                            assert(self.spec_entry_error(*config, config.commands@[i as int], err));
                        }
                        return Err(
                            EntryError { position: i + 1, kind: entry.kind.clone(), error: err },
                        );
                    },
                },
            };
            proof {
                assert(*entry == config.commands@[i as int]);
                assert(spec_required_missing(spec_kind_of(entry.kind@)->Some_0, entry.params)
                    =~= Seq::<ParamField>::empty());
                assert(!self.spec_entry_fails(*config, config.commands@[i as int]));
                assert(self.spec_entry_command(*config, config.commands@[i as int], rc));
            }
            list.push(rc);
            i = i + 1;
        }
        Ok(list)
    }
}

} // verus!
