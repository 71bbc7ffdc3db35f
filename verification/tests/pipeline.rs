//! Tests of the command-configuration pipeline.

use brix_pipeline::commands::{
    overwrite_action, CopyCommand, SearchReplaceCommand, TemplateCommand, ParamField, WriteAction,
};
use brix_pipeline::context::{ContextMap, FlatContext};
use brix_pipeline::errors::BrixError;
use brix_pipeline::loader::{CommandEntry, ConfigLoader, RawConfig, ResolvedCommand};
use brix_pipeline::params::{join_path, RawCommandParams, ProcessedCommandParams};
use brix_pipeline::registry::{resolve, CommandKind};
use brix_pipeline::render::{render, TemplateError};

fn pairs(entries: &[(&str, &str)]) -> Vec<(String, String)> {
    entries.iter().map(|(k, v)| (k.to_string(), v.to_string())).collect()
}

fn empty_params() -> RawCommandParams {
    RawCommandParams {
        source: None,
        destination: None,
        overwrite: None,
        search: None,
        replace: None,
        context: None,
    }
}

#[test]
fn merge_prefers_local_over_global_over_cli() {
    let cm = ContextMap {
        cli_positional: pairs(&[("a", "cli"), ("b", "cli"), ("c", "cli")]),
        config_global: pairs(&[("b", "global"), ("c", "global")]),
        command_local: pairs(&[("c", "local"), ("d", "local")]),
    };
    let merged = cm.do_merge();
    assert_eq!(merged.get(&"a".to_string()).unwrap().as_str(), "cli");
    assert_eq!(merged.get(&"b".to_string()).unwrap().as_str(), "global");
    assert_eq!(merged.get(&"c".to_string()).unwrap().as_str(), "local");
    assert_eq!(merged.get(&"d".to_string()).unwrap().as_str(), "local");
    assert!(merged.get(&"e".to_string()).is_none());
}

#[test]
fn render_without_placeholders_is_identity() {
    let ctx = FlatContext { entries: pairs(&[("name", "Brix")]) };
    assert_eq!(render("plain text, no braces", &ctx).unwrap(), "plain text, no braces");
    assert_eq!(render("", &ctx).unwrap(), "");
    let empty = FlatContext { entries: Vec::new() };
    assert_eq!(render("single { and } are fine", &empty).unwrap(), "single { and } are fine");
}

#[test]
fn render_substitutes_and_trims() {
    let ctx = FlatContext { entries: pairs(&[("name", "Brix"), ("x", "1")]) };
    assert_eq!(render("Hello {{name}}", &ctx).unwrap(), "Hello Brix");
    assert_eq!(render("Hello {{ name }}!", &ctx).unwrap(), "Hello Brix!");
    assert_eq!(render("{{x}}{{x}}", &ctx).unwrap(), "11");
}

#[test]
fn render_undefined_variable_fails_without_partial_output() {
    let ctx = FlatContext { entries: pairs(&[("x", "1")]) };
    match render("before {{missing}} after", &ctx) {
        Err(TemplateError::UndefinedVariable(k)) => assert_eq!(k, "missing"),
        _ => panic!("expected an undefined-variable error"),
    }
}

#[test]
fn render_unclosed_placeholder_fails() {
    let ctx = FlatContext { entries: Vec::new() };
    match render("oops {{never closed", &ctx) {
        Err(TemplateError::UnclosedPlaceholder) => {}
        _ => panic!("expected an unclosed-placeholder error"),
    }
}

#[test]
fn resolve_is_case_insensitive() {
    assert_eq!(resolve("copy").unwrap(), CommandKind::Copy);
    assert_eq!(resolve("COPY").unwrap(), CommandKind::Copy);
    assert_eq!(resolve("copy").unwrap(), resolve("COPY").unwrap());
    assert_eq!(resolve("Search_Replace").unwrap(), CommandKind::SearchReplace);
    assert_eq!(resolve("template").unwrap(), CommandKind::Template);
}

#[test]
fn resolve_suggests_the_closest_kind() {
    match resolve("coyp") {
        Err(e) => {
            assert_eq!(e.kind, "coyp");
            assert_eq!(e.suggestion.as_deref(), Some("copy"));
            assert_eq!(e.message(), "command 'coyp' not found... did you mean 'copy'?");
        }
        Ok(_) => panic!("'coyp' must not resolve"),
    }
}

#[test]
fn resolve_suggests_template_for_its_misspelling() {
    match resolve("tempalte") {
        Err(e) => {
            assert_eq!(e.kind, "tempalte");
            assert_eq!(e.suggestion.as_deref(), Some("template"));
        }
        Ok(_) => panic!("'tempalte' must not resolve"),
    }
}

#[test]
fn resolve_stays_silent_with_no_close_match() {
    match resolve("xyzxyz") {
        Err(e) => {
            assert_eq!(e.kind, "xyzxyz");
            assert!(e.suggestion.is_none());
            assert_eq!(e.message(), "command 'xyzxyz' not found");
        }
        Ok(_) => panic!("'xyzxyz' must not resolve"),
    }
}

#[test]
fn suggestion_threshold_is_inclusive_at_six_tenths() {
    // lcs("copzzz", "copy") = 3 and 2*3/(6+4) is exactly six tenths.
    match resolve("copzzz") {
        Err(e) => assert_eq!(e.suggestion.as_deref(), Some("copy")),
        Ok(_) => panic!("'copzzz' must not resolve"),
    }
    // One more character pushes the ratio below the threshold.
    match resolve("copzzzz") {
        Err(e) => assert!(e.suggestion.is_none()),
        Ok(_) => panic!("'copzzzz' must not resolve"),
    }
}

#[test]
fn process_preserves_entry_order() {
    let loader = ConfigLoader { cli_config: Vec::new(), config_dir: Some("".to_string()) };
    let config = RawConfig {
        commands: vec![
            CommandEntry {
                kind: "template".to_string(),
                params: RawCommandParams {
                    source: Some("a".to_string()),
                    destination: Some("b".to_string()),
                    ..empty_params()
                },
            },
            CommandEntry {
                kind: "copy".to_string(),
                params: RawCommandParams {
                    source: Some("b".to_string()),
                    destination: Some("c".to_string()),
                    ..empty_params()
                },
            },
        ],
        context: None,
    };
    let list = loader.process(&config).unwrap();
    assert_eq!(list.len(), 2);
    match &list[0] {
        ResolvedCommand::Template(p) => {
            assert_eq!(p.source(), "a");
            assert_eq!(p.destination(), "b");
        }
        _ => panic!("first command must be the template"),
    }
    match &list[1] {
        ResolvedCommand::Copy(p) => {
            assert_eq!(p.source, "b");
            assert_eq!(p.destination, "c");
        }
        _ => panic!("second command must be the copy"),
    }
}

#[test]
fn validation_reports_every_missing_field() {
    let cmd = TemplateCommand::new();
    let p = ProcessedCommandParams {
        source: None,
        destination: None,
        overwrite: None,
        search: None,
        replace: None,
        context: None,
    };
    match cmd.from(p) {
        Err(e) => {
            assert_eq!(e.missing, vec![ParamField::Source, ParamField::Destination]);
            assert_eq!(e.message(), "missing required field(s): source, destination");
        }
        Ok(_) => panic!("validation must fail"),
    }
}

#[test]
fn validation_reports_single_missing_field() {
    let cmd = TemplateCommand::new();
    let p = ProcessedCommandParams {
        source: Some("tpl".to_string()),
        destination: None,
        overwrite: None,
        search: None,
        replace: None,
        context: None,
    };
    match cmd.from(p) {
        Err(e) => {
            assert_eq!(e.missing, vec![ParamField::Destination]);
            assert_eq!(e.message(), "missing required field(s): destination");
        }
        Ok(_) => panic!("validation must fail"),
    }
}

#[test]
fn search_replace_requires_search_and_replace() {
    let cmd = SearchReplaceCommand::new();
    let p = ProcessedCommandParams {
        source: None,
        destination: Some("file.txt".to_string()),
        overwrite: None,
        search: None,
        replace: None,
        context: None,
    };
    match cmd.from(p) {
        Err(e) => assert_eq!(e.missing, vec![ParamField::Search, ParamField::Replace]),
        Ok(_) => panic!("validation must fail"),
    }
}

#[test]
fn copy_validation_passes_fields_through() {
    let cmd = CopyCommand::new();
    let p = ProcessedCommandParams {
        source: Some("a".to_string()),
        destination: Some("b".to_string()),
        overwrite: Some(true),
        search: None,
        replace: None,
        context: None,
    };
    let t = cmd.from(p).unwrap();
    assert_eq!(t.source, "a");
    assert_eq!(t.destination, "b");
    assert_eq!(t.overwrite, Some(true));
}

#[test]
fn template_end_to_end_renders_and_writes_without_prompt() {
    let loader = ConfigLoader { cli_config: Vec::new(), config_dir: Some("".to_string()) };
    let config = RawConfig {
        commands: vec![CommandEntry {
            kind: "template".to_string(),
            params: RawCommandParams {
                source: Some("t.txt".to_string()),
                destination: Some("out.txt".to_string()),
                context: Some(pairs(&[("name", "Brix")])),
                ..empty_params()
            },
        }],
        context: Some(Vec::new()),
    };
    let list = loader.process(&config).unwrap();
    assert_eq!(list.len(), 1);
    match &list[0] {
        ResolvedCommand::Template(p) => {
            assert_eq!(p.source(), "t.txt");
            assert_eq!(p.destination(), "out.txt");
            let cmd = TemplateCommand::new();
            let out = cmd
                .rendered_contents(p, "Hello {{name}}", &Vec::new(), &Vec::new())
                .unwrap();
            assert_eq!(out, "Hello Brix");
            // The destination does not exist yet: write outright, no prompt.
            assert_eq!(overwrite_action(p.overwrite(), false), WriteAction::Write);
        }
        _ => panic!("expected a template command"),
    }
}

#[test]
fn template_contents_render_with_all_three_layers() {
    let cmd = TemplateCommand::new();
    let p = cmd
        .from(ProcessedCommandParams {
            source: Some("s".to_string()),
            destination: Some("d".to_string()),
            overwrite: None,
            search: None,
            replace: None,
            context: Some(pairs(&[("name", "Brix")])),
        })
        .unwrap();
    let global = pairs(&[("greeting", "Hello"), ("name", "shadowed")]);
    let cli = pairs(&[("who", "world"), ("greeting", "shadowed")]);
    let out = cmd
        .rendered_contents(&p, "{{greeting}} {{name}}, {{who}}", &global, &cli)
        .unwrap();
    // local shadows global shadows cli; keys unique to a layer render too.
    assert_eq!(out, "Hello Brix, world");
}

#[test]
fn existing_destination_without_flag_prompts() {
    assert_eq!(overwrite_action(None, true), WriteAction::Prompt);
    assert_eq!(overwrite_action(Some(true), true), WriteAction::Write);
    assert_eq!(overwrite_action(Some(false), true), WriteAction::Skip);
    assert_eq!(overwrite_action(Some(false), false), WriteAction::Write);
}

#[test]
fn source_resolves_config_relative_destination_stays_authored() {
    let loader = ConfigLoader {
        cli_config: Vec::new(),
        config_dir: Some("/etc/brix".to_string()),
    };
    let raw = RawCommandParams {
        source: Some("tpl/a.txt".to_string()),
        destination: Some("out/b.txt".to_string()),
        ..empty_params()
    };
    let p = loader.create_processed_args(&raw).unwrap();
    assert_eq!(p.source.as_deref(), Some("/etc/brix/tpl/a.txt"));
    assert_eq!(p.destination.as_deref(), Some("out/b.txt"));
}

#[test]
fn join_path_keeps_absolute_paths() {
    assert_eq!(join_path("/base", "/abs/x"), "/abs/x");
    assert_eq!(join_path("/base/", "rel"), "/base/rel");
    assert_eq!(join_path("", "rel"), "rel");
    assert_eq!(join_path("/base", "rel"), "/base/rel");
}

#[test]
fn rendering_uses_merged_context_with_precedence() {
    let loader = ConfigLoader {
        cli_config: pairs(&[("who", "cli"), ("greeting", "Hi")]),
        config_dir: Some("".to_string()),
    };
    let config = RawConfig {
        commands: vec![CommandEntry {
            kind: "copy".to_string(),
            params: RawCommandParams {
                source: Some("{{greeting}}".to_string()),
                destination: Some("{{who}}.txt".to_string()),
                context: Some(pairs(&[("who", "local")])),
                ..empty_params()
            },
        }],
        context: Some(pairs(&[("who", "global"), ("greeting", "Hello")])),
    };
    let list = loader.process(&config).unwrap();
    match &list[0] {
        ResolvedCommand::Copy(p) => {
            // global overrides cli; local overrides global.
            assert_eq!(p.source, "Hello");
            assert_eq!(p.destination, "local.txt");
        }
        _ => panic!("expected a copy command"),
    }
}

#[test]
fn process_fails_fast_on_unknown_kind() {
    let loader = ConfigLoader { cli_config: Vec::new(), config_dir: Some("".to_string()) };
    let config = RawConfig {
        commands: vec![
            CommandEntry { kind: "coyp".to_string(), params: empty_params() },
            CommandEntry {
                kind: "copy".to_string(),
                params: RawCommandParams {
                    source: Some("a".to_string()),
                    destination: Some("b".to_string()),
                    ..empty_params()
                },
            },
        ],
        context: None,
    };
    match loader.process(&config) {
        Err(e) => {
            assert_eq!(e.position, 1);
            assert_eq!(e.kind, "coyp");
            assert!(matches!(e.error, BrixError::CommandNotFound(_)));
            assert_eq!(
                e.message(),
                "command entry 1 ('coyp'): command 'coyp' not found... did you mean 'copy'?"
            );
        }
        _ => panic!("expected a command-not-found error"),
    }
}

#[test]
fn process_propagates_undefined_variable() {
    let loader = ConfigLoader { cli_config: Vec::new(), config_dir: Some("".to_string()) };
    let config = RawConfig {
        commands: vec![CommandEntry {
            kind: "copy".to_string(),
            params: RawCommandParams {
                source: Some("{{nope}}".to_string()),
                destination: Some("b".to_string()),
                ..empty_params()
            },
        }],
        context: None,
    };
    match loader.process(&config) {
        Err(e) => {
            assert_eq!(e.position, 1);
            assert_eq!(e.kind, "copy");
            match e.error {
                BrixError::Template(TemplateError::UndefinedVariable(ref k)) => {
                    assert_eq!(k, "nope")
                }
                _ => panic!("expected an undefined-variable error"),
            }
            assert_eq!(e.message(), "command entry 1 ('copy'): undefined variable 'nope'");
        }
        _ => panic!("expected an undefined-variable error"),
    }
}

#[test]
fn entry_needs_exactly_one_key() {
    let one = vec![("copy".to_string(), empty_params())];
    let entry = CommandEntry::from_pairs(1, one).unwrap();
    assert_eq!(entry.kind, "copy");

    let none: Vec<(String, RawCommandParams)> = Vec::new();
    match CommandEntry::from_pairs(1, none) {
        Err(BrixError::ConfigParse(m)) => {
            assert_eq!(m, "config entry 1 must have exactly one key")
        }
        _ => panic!("an empty mapping must be a parse error"),
    }

    let two = vec![
        ("copy".to_string(), empty_params()),
        ("template".to_string(), empty_params()),
    ];
    match CommandEntry::from_pairs(12, two) {
        Err(BrixError::ConfigParse(m)) => {
            assert_eq!(m, "config entry 12 must have exactly one key")
        }
        _ => panic!("a two-key mapping must be a parse error"),
    }
}

#[test]
fn template_params_equality_compares_contents() {
    let cmd = TemplateCommand::new();
    let make = |ow: Option<bool>| {
        cmd.from(ProcessedCommandParams {
            source: Some("s".to_string()),
            destination: Some("d".to_string()),
            overwrite: ow,
            search: None,
            replace: None,
            context: Some(pairs(&[("k", "v")])),
        })
        .unwrap()
    };
    assert!(make(None) == make(None));
    assert!(!(make(None) == make(Some(true))));
}

#[test]
fn error_messages_name_the_cause() {
    let e = BrixError::Io("disk full".to_string());
    assert_eq!(e.message(), "disk full");
    let e = BrixError::ConfigParse("bad document".to_string());
    assert_eq!(e.message(), "could not parse config: bad document");
    let e = BrixError::Template(TemplateError::UndefinedVariable("name".to_string()));
    assert_eq!(e.message(), "undefined variable 'name'");
    let e = BrixError::Template(TemplateError::UnclosedPlaceholder);
    assert_eq!(e.message(), "unclosed placeholder");
}
