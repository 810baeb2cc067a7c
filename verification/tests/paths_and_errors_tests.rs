use gleam_cli::error::{describe_error, describe_usage_error, exit_code, Error, UsageError};
use gleam_cli::paths::{locate_project_root, AncestorProbe, ProjectPaths};
use gleam_cli::platform::{
    parse_retirement_reason, parse_runtime, parse_target, parse_which, runtime_doc, target_doc,
    target_name, template_doc, which_name, RetirementReason, Runtime, Target, Which,
};
use gleam_cli::strutil::{concat_str, str_eq, str_eq_ignore_case};

fn probe(path: &str, has_manifest: bool) -> AncestorProbe {
    AncestorProbe { path: path.to_string(), has_manifest }
}

#[test]
fn project_root_is_the_nearest_ancestor_with_a_manifest() {
    let probes = vec![
        probe("/home/dev/app/src", false),
        probe("/home/dev/app", true),
        probe("/home/dev", true),
        probe("/home", false),
        probe("/", false),
    ];
    let start = "/home/dev/app/src".to_string();
    let paths = locate_project_root(&probes, &start).expect("a root should be found");
    assert_eq!(paths.root, "/home/dev/app");
}

#[test]
fn missing_manifest_everywhere_is_a_project_error() {
    let probes = vec![probe("/tmp/nowhere", false), probe("/tmp", false), probe("/", false)];
    let start = "/tmp/nowhere".to_string();
    match locate_project_root(&probes, &start) {
        Err(Error::UnableToFindProjectRoot { path }) => assert_eq!(path, "/tmp/nowhere"),
        other => panic!("unexpected: {other:?}"),
    }
    let r: Result<(), Error> =
        Err(Error::UnableToFindProjectRoot { path: "/tmp/nowhere".to_string() });
    assert_eq!(exit_code(&r), 1);
}

#[test]
fn derived_paths_hang_off_the_root() {
    let paths = ProjectPaths::new("/work/app".to_string());
    assert_eq!(paths.build_directory(), "/work/app/build");
    assert_eq!(paths.root_config(), "/work/app/gleam.toml");
    assert_eq!(paths.manifest_path(), "/work/app/manifest.toml");
}

#[test]
fn exit_codes_are_zero_on_success_and_one_on_failure() {
    assert_eq!(exit_code(&Ok(())), 0);
    assert_eq!(exit_code(&Err(Error::Usage(UsageError::MissingCommand))), 1);
}

#[test]
fn stage_diagnostics_are_forwarded_unchanged() {
    let e = Error::StageFailed {
        stage: gleam_cli::error::Stage::Compilation,
        diagnostic: "exact words".to_string(),
    };
    assert_eq!(describe_error(&e), "exact words");
}

#[test]
fn usage_errors_describe_themselves() {
    let e = UsageError::UnknownCommand { got: "frob".to_string() };
    assert_eq!(describe_usage_error(&e), "unrecognized subcommand: frob");
    let e = UsageError::MissingArgument { name: "--out".to_string() };
    assert_eq!(
        describe_usage_error(&e),
        "the following required argument was not provided: --out"
    );
    let e = Error::UnableToFindProjectRoot { path: "/x".to_string() };
    assert_eq!(describe_error(&e), "could not find a gleam project from: /x");
}

#[test]
fn target_parsing_is_case_insensitive_and_rejects_unknowns() {
    assert_eq!(parse_target("erlang"), Some(Target::Erlang));
    assert_eq!(parse_target("Erlang"), Some(Target::Erlang));
    assert_eq!(parse_target("javascript"), Some(Target::JavaScript));
    assert_eq!(parse_target("JavaScript"), Some(Target::JavaScript));
    assert_eq!(parse_target("JAVASCRIPT"), Some(Target::JavaScript));
    assert_eq!(parse_target("fortran"), None);
    assert_eq!(parse_target(""), None);
}

#[test]
fn runtime_parsing_accepts_both_node_spellings() {
    assert_eq!(parse_runtime("nodejs"), Some(Runtime::NodeJs));
    assert_eq!(parse_runtime("NODE"), Some(Runtime::NodeJs));
    assert_eq!(parse_runtime("Deno"), Some(Runtime::Deno));
    assert_eq!(parse_runtime("bun"), Some(Runtime::Bun));
    assert_eq!(parse_runtime("jvm"), None);
}

#[test]
fn which_parsing_is_case_insensitive() {
    assert_eq!(parse_which("src"), Some(Which::Src));
    assert_eq!(parse_which("TEST"), Some(Which::Test));
    assert_eq!(parse_which("Dev"), Some(Which::Dev));
    assert_eq!(parse_which("main"), None);
}

#[test]
fn retirement_reasons_are_matched_exactly() {
    assert_eq!(parse_retirement_reason("other"), Some(RetirementReason::Other));
    assert_eq!(parse_retirement_reason("invalid"), Some(RetirementReason::Invalid));
    assert_eq!(parse_retirement_reason("security"), Some(RetirementReason::Security));
    assert_eq!(parse_retirement_reason("deprecated"), Some(RetirementReason::Deprecated));
    assert_eq!(parse_retirement_reason("renamed"), Some(RetirementReason::Renamed));
    assert_eq!(parse_retirement_reason("Renamed"), None);
}

#[test]
fn canonical_names_round_trip() {
    for t in [Target::Erlang, Target::JavaScript] {
        assert_eq!(parse_target(target_name(t)), Some(t));
    }
    for w in [Which::Src, Which::Test, Which::Dev] {
        assert_eq!(parse_which(which_name(w)), Some(w));
    }
}

#[test]
fn help_texts_list_the_choices() {
    assert_eq!(template_doc(), "The template to use");
    assert_eq!(target_doc(), "The platform to target (erlang|javascript)");
    assert_eq!(runtime_doc(), "The runtime to target (nodejs|deno|bun)");
}

#[test]
fn string_comparisons() {
    assert!(str_eq("abc", "abc"));
    assert!(!str_eq("abc", "abd"));
    assert!(!str_eq("abc", "ab"));
    assert!(str_eq_ignore_case("ErLaNg", "eRlAnG"));
    assert!(!str_eq_ignore_case("erlang", "erlang "));
    assert_eq!(concat_str("a", "bc"), "abc");
}
