use gleam_cli::command::{Command, Dependencies, Docs, ExportTarget, Hex, Owner};
use gleam_cli::error::UsageError;
use gleam_cli::parser::parse;
use gleam_cli::platform::{RetirementReason, Runtime, Target, Template};

fn args(tokens: &[&str]) -> Vec<String> {
    tokens.iter().map(|t| t.to_string()).collect()
}

#[test]
fn no_command_is_a_usage_error() {
    assert!(matches!(parse(&args(&[])), Err(UsageError::MissingCommand)));
}

#[test]
fn unknown_command_is_reported_verbatim() {
    match parse(&args(&["frobnicate"])) {
        Err(UsageError::UnknownCommand { got }) => assert_eq!(got, "frobnicate"),
        other => panic!("unexpected: {other:?}"),
    }
}

#[test]
fn build_defaults() {
    match parse(&args(&["build"])) {
        Ok(Command::Build { warnings_as_errors, target, no_print_progress }) => {
            assert!(!warnings_as_errors);
            assert_eq!(target, None);
            assert!(!no_print_progress);
        }
        other => panic!("unexpected: {other:?}"),
    }
}

#[test]
fn build_with_all_flags() {
    let r = parse(&args(&[
        "build",
        "--warnings-as-errors",
        "-t",
        "javascript",
        "--no-print-progress",
    ]));
    match r {
        Ok(Command::Build { warnings_as_errors, target, no_print_progress }) => {
            assert!(warnings_as_errors);
            assert_eq!(target, Some(Target::JavaScript));
            assert!(no_print_progress);
        }
        other => panic!("unexpected: {other:?}"),
    }
}

#[test]
fn build_rejects_unknown_flag() {
    match parse(&args(&["build", "--frob"])) {
        Err(UsageError::UnknownFlag { flag }) => assert_eq!(flag, "--frob"),
        other => panic!("unexpected: {other:?}"),
    }
}

#[test]
fn build_rejects_positional_argument() {
    match parse(&args(&["build", "here"])) {
        Err(UsageError::UnexpectedArgument { got }) => assert_eq!(got, "here"),
        other => panic!("unexpected: {other:?}"),
    }
}

#[test]
fn build_rejects_duplicate_flag() {
    match parse(&args(&["build", "--warnings-as-errors", "--warnings-as-errors"])) {
        Err(UsageError::DuplicateFlag { flag }) => assert_eq!(flag, "--warnings-as-errors"),
        other => panic!("unexpected: {other:?}"),
    }
}

#[test]
fn target_flag_requires_a_value() {
    match parse(&args(&["check", "--target"])) {
        Err(UsageError::MissingValue { flag }) => assert_eq!(flag, "--target"),
        other => panic!("unexpected: {other:?}"),
    }
}

#[test]
fn check_target_is_case_insensitive() {
    for spelling in ["javascript", "JavaScript", "JAVASCRIPT"] {
        match parse(&args(&["check", "--target", spelling])) {
            Ok(Command::Check { target }) => assert_eq!(target, Some(Target::JavaScript)),
            other => panic!("unexpected for {spelling}: {other:?}"),
        }
    }
}

#[test]
fn invalid_target_lists_the_choices() {
    match parse(&args(&["check", "--target", "cobol"])) {
        Err(UsageError::InvalidValue { flag, value, choices }) => {
            assert_eq!(flag, "--target");
            assert_eq!(value, "cobol");
            assert_eq!(choices, "erlang|javascript");
        }
        other => panic!("unexpected: {other:?}"),
    }
}

#[test]
fn publish_flags() {
    match parse(&args(&["publish", "--replace", "-y"])) {
        Ok(Command::Publish { replace, yes }) => {
            assert!(replace);
            assert!(yes);
        }
        other => panic!("unexpected: {other:?}"),
    }
}

#[test]
fn docs_build_and_publish_and_remove() {
    match parse(&args(&["docs", "build", "--open"])) {
        Ok(Command::Docs(Docs::Build { open, target })) => {
            assert!(open);
            assert_eq!(target, None);
        }
        other => panic!("unexpected: {other:?}"),
    }
    assert!(matches!(parse(&args(&["docs", "publish"])), Ok(Command::Docs(Docs::Publish))));
    match parse(&args(&["docs", "remove", "--package", "wibble", "--version", "1.0.0"])) {
        Ok(Command::Docs(Docs::Remove { package, version })) => {
            assert_eq!(package, "wibble");
            assert_eq!(version, "1.0.0");
        }
        other => panic!("unexpected: {other:?}"),
    }
}

#[test]
fn docs_remove_requires_package_and_version() {
    match parse(&args(&["docs", "remove", "--version", "1.0.0"])) {
        Err(UsageError::MissingArgument { name }) => assert_eq!(name, "--package"),
        other => panic!("unexpected: {other:?}"),
    }
    match parse(&args(&["docs", "remove", "--package", "wibble"])) {
        Err(UsageError::MissingArgument { name }) => assert_eq!(name, "--version"),
        other => panic!("unexpected: {other:?}"),
    }
}

#[test]
fn deps_subcommands() {
    assert!(matches!(parse(&args(&["deps", "list"])), Ok(Command::Deps(Dependencies::List))));
    assert!(matches!(
        parse(&args(&["deps", "download"])),
        Ok(Command::Deps(Dependencies::Download))
    ));
    assert!(matches!(
        parse(&args(&["deps", "outdated"])),
        Ok(Command::Deps(Dependencies::Outdated))
    ));
    match parse(&args(&["deps", "update", "wibble", "wobble"])) {
        Ok(Command::Deps(Dependencies::Update(u))) => {
            assert_eq!(u.packages, vec!["wibble".to_string(), "wobble".to_string()]);
        }
        other => panic!("unexpected: {other:?}"),
    }
}

#[test]
fn deps_tree_flags() {
    match parse(&args(&["deps", "tree", "--package", "wibble"])) {
        Ok(Command::Deps(Dependencies::Tree(t))) => {
            assert_eq!(t.package.as_deref(), Some("wibble"));
            assert_eq!(t.invert, None);
        }
        other => panic!("unexpected: {other:?}"),
    }
    match parse(&args(&["deps", "tree", "-i", "wobble"])) {
        Ok(Command::Deps(Dependencies::Tree(t))) => {
            assert_eq!(t.package, None);
            assert_eq!(t.invert.as_deref(), Some("wobble"));
        }
        other => panic!("unexpected: {other:?}"),
    }
}

#[test]
fn deps_tree_package_and_invert_conflict() {
    match parse(&args(&["deps", "tree", "--package", "foo", "--invert", "bar"])) {
        Err(UsageError::ConflictingFlags { first, second }) => {
            assert_eq!(first, "--package");
            assert_eq!(second, "--invert");
        }
        other => panic!("unexpected: {other:?}"),
    }
}

#[test]
fn update_collects_packages() {
    match parse(&args(&["update"])) {
        Ok(Command::Update(u)) => assert!(u.packages.is_empty()),
        other => panic!("unexpected: {other:?}"),
    }
    match parse(&args(&["update", "one", "two"])) {
        Ok(Command::Update(u)) => {
            assert_eq!(u.packages, vec!["one".to_string(), "two".to_string()])
        }
        other => panic!("unexpected: {other:?}"),
    }
}

#[test]
fn add_requires_packages_and_accepts_dev() {
    match parse(&args(&["add"])) {
        Err(UsageError::MissingArgument { name }) => assert_eq!(name, "packages"),
        other => panic!("unexpected: {other:?}"),
    }
    match parse(&args(&["add", "--dev", "wibble", "warble"])) {
        Ok(Command::Add { packages, dev }) => {
            assert!(dev);
            assert_eq!(packages, vec!["wibble".to_string(), "warble".to_string()]);
        }
        other => panic!("unexpected: {other:?}"),
    }
}

#[test]
fn remove_requires_packages() {
    match parse(&args(&["remove"])) {
        Err(UsageError::MissingArgument { name }) => assert_eq!(name, "packages"),
        other => panic!("unexpected: {other:?}"),
    }
    match parse(&args(&["remove", "wibble"])) {
        Ok(Command::Remove { packages }) => assert_eq!(packages, vec!["wibble".to_string()]),
        other => panic!("unexpected: {other:?}"),
    }
}

#[test]
fn run_captures_trailing_arguments_verbatim() {
    let r = parse(&args(&["run", "-t", "erlang", "--module", "mane", "one", "--two", "-3"]));
    match r {
        Ok(Command::Run { target, runtime, module, no_print_progress, arguments }) => {
            assert_eq!(target, Some(Target::Erlang));
            assert_eq!(runtime, None);
            assert_eq!(module.as_deref(), Some("mane"));
            assert!(!no_print_progress);
            assert_eq!(
                arguments,
                vec!["one".to_string(), "--two".to_string(), "-3".to_string()]
            );
        }
        other => panic!("unexpected: {other:?}"),
    }
}

#[test]
fn test_command_accepts_runtime_case_insensitively() {
    for spelling in ["nodejs", "NodeJS", "node"] {
        match parse(&args(&["test", "--runtime", spelling])) {
            Ok(Command::Test { runtime, .. }) => assert_eq!(runtime, Some(Runtime::NodeJs)),
            other => panic!("unexpected for {spelling}: {other:?}"),
        }
    }
    match parse(&args(&["test", "--runtime", "lua"])) {
        Err(UsageError::InvalidValue { flag, value, choices }) => {
            assert_eq!(flag, "--runtime");
            assert_eq!(value, "lua");
            assert_eq!(choices, "nodejs|deno|bun");
        }
        other => panic!("unexpected: {other:?}"),
    }
}

#[test]
fn dev_command_parses() {
    match parse(&args(&["dev", "--runtime", "deno", "x"])) {
        Ok(Command::Dev { target, runtime, arguments }) => {
            assert_eq!(target, None);
            assert_eq!(runtime, Some(Runtime::Deno));
            assert_eq!(arguments, vec!["x".to_string()]);
        }
        other => panic!("unexpected: {other:?}"),
    }
}

#[test]
fn bare_commands_parse_and_reject_extras() {
    assert!(matches!(parse(&args(&["fix"])), Ok(Command::Fix)));
    assert!(matches!(parse(&args(&["shell"])), Ok(Command::Shell)));
    assert!(matches!(parse(&args(&["clean"])), Ok(Command::Clean)));
    assert!(matches!(parse(&args(&["lsp"])), Ok(Command::LanguageServer)));
    assert!(matches!(parse(&args(&["print-config"])), Ok(Command::PrintConfig)));
    assert!(matches!(
        parse(&args(&["clean", "now"])),
        Err(UsageError::UnexpectedArgument { .. })
    ));
    assert!(matches!(parse(&args(&["fix", "--force"])), Err(UsageError::UnknownFlag { .. })));
}

#[test]
fn new_command_parses() {
    match parse(&args(&["new", "my_project", "--name", "other", "--skip-git"])) {
        Ok(Command::New(o)) => {
            assert_eq!(o.project_root, "my_project");
            assert_eq!(o.name.as_deref(), Some("other"));
            assert_eq!(o.template, Template::Erlang);
            assert!(o.skip_git);
            assert!(!o.skip_github);
        }
        other => panic!("unexpected: {other:?}"),
    }
    match parse(&args(&["new", "p", "--template", "JavaScript"])) {
        Ok(Command::New(o)) => assert_eq!(o.template, Template::JavaScript),
        other => panic!("unexpected: {other:?}"),
    }
    match parse(&args(&["new"])) {
        Err(UsageError::MissingArgument { name }) => assert_eq!(name, "project_root"),
        other => panic!("unexpected: {other:?}"),
    }
}

#[test]
fn format_defaults_to_current_directory() {
    match parse(&args(&["format"])) {
        Ok(Command::Format { files, stdin, check }) => {
            assert_eq!(files, vec![".".to_string()]);
            assert!(!stdin);
            assert!(!check);
        }
        other => panic!("unexpected: {other:?}"),
    }
    match parse(&args(&["format", "--check", "--stdin", "src", "test"])) {
        Ok(Command::Format { files, stdin, check }) => {
            assert_eq!(files, vec!["src".to_string(), "test".to_string()]);
            assert!(stdin);
            assert!(check);
        }
        other => panic!("unexpected: {other:?}"),
    }
}

#[test]
fn hex_retire_parses_reason_exactly() {
    match parse(&args(&["hex", "retire", "wibble", "1.0.0", "security", "bad release"])) {
        Ok(Command::Hex(Hex::Retire { package, version, reason, message })) => {
            assert_eq!(package, "wibble");
            assert_eq!(version, "1.0.0");
            assert_eq!(reason, RetirementReason::Security);
            assert_eq!(message.as_deref(), Some("bad release"));
        }
        other => panic!("unexpected: {other:?}"),
    }
    match parse(&args(&["hex", "retire", "wibble", "1.0.0", "Security"])) {
        Err(UsageError::InvalidValue { flag, value, choices }) => {
            assert_eq!(flag, "reason");
            assert_eq!(value, "Security");
            assert_eq!(choices, "other|invalid|security|deprecated|renamed");
        }
        other => panic!("unexpected: {other:?}"),
    }
    match parse(&args(&["hex", "retire", "wibble", "1.0.0"])) {
        Err(UsageError::MissingArgument { name }) => assert_eq!(name, "reason"),
        other => panic!("unexpected: {other:?}"),
    }
}

#[test]
fn hex_unretire_revert_owner_authenticate() {
    match parse(&args(&["hex", "unretire", "wibble", "1.0.0"])) {
        Ok(Command::Hex(Hex::Unretire { package, version })) => {
            assert_eq!(package, "wibble");
            assert_eq!(version, "1.0.0");
        }
        other => panic!("unexpected: {other:?}"),
    }
    match parse(&args(&["hex", "revert", "--package", "wibble"])) {
        Ok(Command::Hex(Hex::Revert { package, version })) => {
            assert_eq!(package.as_deref(), Some("wibble"));
            assert_eq!(version, None);
        }
        other => panic!("unexpected: {other:?}"),
    }
    match parse(&args(&["hex", "owner", "transfer", "wibble", "--to", "alex"])) {
        Ok(Command::Hex(Hex::Owner(Owner::Transfer { package, username_or_email }))) => {
            assert_eq!(package, "wibble");
            assert_eq!(username_or_email, "alex");
        }
        other => panic!("unexpected: {other:?}"),
    }
    assert!(matches!(
        parse(&args(&["hex", "authenticate"])),
        Ok(Command::Hex(Hex::Authenticate))
    ));
    match parse(&args(&["hex", "owner", "transfer", "wibble"])) {
        Err(UsageError::MissingArgument { name }) => assert_eq!(name, "--to"),
        other => panic!("unexpected: {other:?}"),
    }
}

#[test]
fn compile_package_requires_its_directories() {
    let full = parse(&args(&[
        "compile-package",
        "--target",
        "erlang",
        "--package",
        "pkg",
        "--out",
        "outdir",
        "--lib",
        "libdir",
        "--no-beam",
    ]));
    match full {
        Ok(Command::CompilePackage(c)) => {
            assert_eq!(c.target, Target::Erlang);
            assert_eq!(c.package_directory, "pkg");
            assert_eq!(c.output_directory, "outdir");
            assert_eq!(c.libraries_directory, "libdir");
            assert_eq!(c.javascript_prelude, None);
            assert!(c.skip_beam_compilation);
        }
        other => panic!("unexpected: {other:?}"),
    }
    match parse(&args(&["compile-package", "--target", "erlang"])) {
        Err(UsageError::MissingArgument { name }) => assert_eq!(name, "--package"),
        other => panic!("unexpected: {other:?}"),
    }
}

#[test]
fn duplicate_valued_flag_is_rejected() {
    match parse(&args(&["check", "-t", "erlang", "--target", "javascript"])) {
        Err(UsageError::DuplicateFlag { flag }) => assert_eq!(flag, "--target"),
        other => panic!("unexpected: {other:?}"),
    }
}

#[test]
fn nested_subcommands_are_required_and_checked() {
    assert!(matches!(parse(&args(&["docs"])), Err(UsageError::MissingSubcommand { .. })));
    assert!(matches!(parse(&args(&["deps"])), Err(UsageError::MissingSubcommand { .. })));
    assert!(matches!(parse(&args(&["hex"])), Err(UsageError::MissingSubcommand { .. })));
    assert!(matches!(parse(&args(&["hex", "owner"])), Err(UsageError::MissingSubcommand { .. })));
    match parse(&args(&["deps", "prune"])) {
        Err(UsageError::UnknownCommand { got }) => assert_eq!(got, "prune"),
        other => panic!("unexpected: {other:?}"),
    }
    match parse(&args(&["hex", "owner", "steal"])) {
        Err(UsageError::UnknownCommand { got }) => assert_eq!(got, "steal"),
        other => panic!("unexpected: {other:?}"),
    }
}

#[test]
fn unretire_arity_is_checked() {
    match parse(&args(&["hex", "unretire", "wibble"])) {
        Err(UsageError::MissingArgument { name }) => assert_eq!(name, "version"),
        other => panic!("unexpected: {other:?}"),
    }
    match parse(&args(&["hex", "unretire", "wibble", "1.0.0", "extra"])) {
        Err(UsageError::UnexpectedArgument { got }) => assert_eq!(got, "extra"),
        other => panic!("unexpected: {other:?}"),
    }
}

#[test]
fn tree_rejects_positional_arguments() {
    match parse(&args(&["deps", "tree", "wibble"])) {
        Err(UsageError::UnexpectedArgument { got }) => assert_eq!(got, "wibble"),
        other => panic!("unexpected: {other:?}"),
    }
}

#[test]
fn export_subcommands() {
    assert!(matches!(
        parse(&args(&["export", "erlang-shipment"])),
        Ok(Command::Export(ExportTarget::ErlangShipment))
    ));
    assert!(matches!(
        parse(&args(&["export", "hex-tarball"])),
        Ok(Command::Export(ExportTarget::HexTarball))
    ));
    assert!(matches!(
        parse(&args(&["export", "javascript-prelude"])),
        Ok(Command::Export(ExportTarget::JavascriptPrelude))
    ));
    assert!(matches!(
        parse(&args(&["export", "typescript-prelude"])),
        Ok(Command::Export(ExportTarget::TypescriptPrelude))
    ));
    match parse(&args(&["export", "package-interface", "--out", "iface.json"])) {
        Ok(Command::Export(ExportTarget::PackageInterface { output })) => {
            assert_eq!(output, "iface.json")
        }
        other => panic!("unexpected: {other:?}"),
    }
    match parse(&args(&["export", "package-information", "--out", "info.json"])) {
        Ok(Command::Export(ExportTarget::PackageInformation { output })) => {
            assert_eq!(output, "info.json")
        }
        other => panic!("unexpected: {other:?}"),
    }
    match parse(&args(&["export", "package-interface"])) {
        Err(UsageError::MissingArgument { name }) => assert_eq!(name, "--out"),
        other => panic!("unexpected: {other:?}"),
    }
    assert!(matches!(parse(&args(&["export"])), Err(UsageError::MissingSubcommand { .. })));
}
