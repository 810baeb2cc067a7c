use gleam_cli::command::Command;
use gleam_cli::dispatch::{plan_for, requires_project, CommandPlan};
use gleam_cli::error::{exit_code, Error, Stage};
use gleam_cli::options::{build_options, check_options, run_options};
use gleam_cli::parser::parse;
use gleam_cli::paths::{locate_project_root, AncestorProbe};
use gleam_cli::pipeline::{
    dependency_download_config, BuildPlan, CheckMajorVersions, Followup, PipelineRun, StageAction,
    StageOutcome, Telemetry, UseManifest,
};
use gleam_cli::platform::{Codegen, Compile, Mode, Target, TargetSupport, Which};

fn args(tokens: &[&str]) -> Vec<String> {
    tokens.iter().map(|t| t.to_string()).collect()
}

fn plan_of(tokens: &[&str]) -> BuildPlan {
    let cmd = parse(&args(tokens)).expect("command should parse");
    match plan_for(cmd) {
        CommandPlan::Pipeline(plan) => plan,
        CommandPlan::Delegated(c) => panic!("expected a pipeline plan, got {c:?}"),
    }
}

#[test]
fn check_options_always_use_dependency_only_codegen() {
    for target in [None, Some(Target::Erlang), Some(Target::JavaScript)] {
        let o = check_options(target);
        assert_eq!(o.codegen, Codegen::DepsOnly);
        assert!(!o.warnings_as_errors);
        assert_eq!(o.compile, Compile::All);
        assert_eq!(o.mode, Mode::Dev);
        assert_eq!(o.root_target_support, TargetSupport::Enforced);
        assert_eq!(o.target, target);
        assert!(!o.no_print_progress);
    }
}

#[test]
fn build_options_honour_their_flags() {
    let o = build_options(Some(Target::Erlang), true, true);
    assert_eq!(o.codegen, Codegen::All);
    assert!(o.warnings_as_errors);
    assert!(o.no_print_progress);
    assert_eq!(o.target, Some(Target::Erlang));
    let o = run_options(None, false);
    assert_eq!(o.codegen, Codegen::All);
    assert!(!o.warnings_as_errors);
}

#[test]
fn dependency_download_config_honours_the_lock_file() {
    let c = dependency_download_config();
    assert_eq!(c.use_manifest, UseManifest::Yes);
    assert_eq!(c.check_major_versions, CheckMajorVersions::No);
}

#[test]
fn build_plan_selects_telemetry_by_flag() {
    let plan = plan_of(&["build", "--no-print-progress"]);
    assert_eq!(plan.telemetry, Telemetry::Null);
    assert_eq!(plan.followup, Followup::NoFollowup);
    let plan = plan_of(&["build"]);
    assert_eq!(plan.telemetry, Telemetry::Reporter);
}

#[test]
fn run_test_dev_plans_select_their_entry_point() {
    match plan_of(&["run", "-m", "mane", "x"]).followup {
        Followup::RunModule { which, module, runtime, arguments } => {
            assert_eq!(which, Which::Src);
            assert_eq!(module.as_deref(), Some("mane"));
            assert_eq!(runtime, None);
            assert_eq!(arguments, vec!["x".to_string()]);
        }
        other => panic!("unexpected: {other:?}"),
    }
    match plan_of(&["test"]).followup {
        Followup::RunModule { which, module, .. } => {
            assert_eq!(which, Which::Test);
            assert_eq!(module, None);
        }
        other => panic!("unexpected: {other:?}"),
    }
    match plan_of(&["dev"]).followup {
        Followup::RunModule { which, module, .. } => {
            assert_eq!(which, Which::Dev);
            assert_eq!(module, None);
        }
        other => panic!("unexpected: {other:?}"),
    }
}

#[test]
fn delegated_commands_keep_their_command() {
    let cmd = parse(&args(&["deps", "list"])).unwrap();
    match plan_for(cmd) {
        CommandPlan::Delegated(Command::Deps(_)) => {}
        other => panic!("unexpected: {other:?}"),
    }
}

#[test]
fn project_commands_need_a_root_and_independent_ones_do_not() {
    for needing in [&["build"][..], &["check"], &["clean"], &["deps", "list"], &["fix"]] {
        let cmd = parse(&args(needing)).unwrap();
        assert!(requires_project(&cmd), "{needing:?} should need a project");
    }
    for free in [
        &["new", "p"][..],
        &["format"],
        &["lsp"],
        &["hex", "authenticate"],
        &["export", "javascript-prelude"],
    ] {
        let cmd = parse(&args(free)).unwrap();
        assert!(!requires_project(&cmd), "{free:?} should not need a project");
    }
}

#[test]
fn dependency_failure_stops_the_pipeline_before_compilation() {
    let plan = plan_of(&["build"]);
    let mut run = PipelineRun::start(plan);
    assert_eq!(run.next_action(), Some(StageAction::ResolveDeps));
    run.apply(StageOutcome::Failure { diagnostic: "no network".to_string() });
    assert_eq!(run.next_action(), None);
    match run.result() {
        Err(Error::StageFailed { stage, diagnostic }) => {
            assert_eq!(stage, Stage::DependencyResolution);
            assert_eq!(diagnostic, "no network");
        }
        other => panic!("unexpected: {other:?}"),
    }
    assert_eq!(exit_code(&run.result()), 1);
}

#[test]
fn compilation_failure_stops_the_pipeline_before_the_follow_up() {
    let plan = plan_of(&["test"]);
    let mut run = PipelineRun::start(plan);
    assert_eq!(run.next_action(), Some(StageAction::ResolveDeps));
    run.apply(StageOutcome::Success);
    assert_eq!(run.next_action(), Some(StageAction::Compile));
    run.apply(StageOutcome::Failure { diagnostic: "type error".to_string() });
    assert_eq!(run.next_action(), None);
    match run.result() {
        Err(Error::StageFailed { stage, diagnostic }) => {
            assert_eq!(stage, Stage::Compilation);
            assert_eq!(diagnostic, "type error");
        }
        other => panic!("unexpected: {other:?}"),
    }
}

#[test]
fn check_with_erlang_target_resolves_then_compiles_dependency_only() {
    let plan = plan_of(&["check", "--target", "erlang"]);
    assert_eq!(plan.options.codegen, Codegen::DepsOnly);
    assert_eq!(plan.options.target, Some(Target::Erlang));
    assert!(!plan.options.warnings_as_errors);
    let mut run = PipelineRun::start(plan);
    assert_eq!(run.next_action(), Some(StageAction::ResolveDeps));
    run.apply(StageOutcome::Success);
    assert_eq!(run.next_action(), Some(StageAction::Compile));
    run.apply(StageOutcome::Success);
    assert_eq!(run.next_action(), None);
    assert!(run.result().is_ok());
    assert_eq!(exit_code(&run.result()), 0);
}

#[test]
fn test_command_fails_when_the_entry_point_is_missing() {
    let plan = plan_of(&["test"]);
    let mut run = PipelineRun::start(plan);
    run.apply(StageOutcome::Success);
    run.apply(StageOutcome::Success);
    assert_eq!(run.next_action(), Some(StageAction::RunFollowup));
    run.apply(StageOutcome::Failure { diagnostic: "module app_test not found".to_string() });
    assert_eq!(run.next_action(), None);
    match run.result() {
        Err(Error::StageFailed { stage, diagnostic }) => {
            assert_eq!(stage, Stage::FollowUp);
            assert_eq!(diagnostic, "module app_test not found");
        }
        other => panic!("unexpected: {other:?}"),
    }
    assert_eq!(exit_code(&run.result()), 1);
}

#[test]
fn build_without_a_project_manifest_fails_with_no_project_found() {
    let cmd = parse(&args(&["build"])).unwrap();
    assert!(requires_project(&cmd));
    let probes = vec![
        AncestorProbe { path: "/scratch/dir".to_string(), has_manifest: false },
        AncestorProbe { path: "/scratch".to_string(), has_manifest: false },
        AncestorProbe { path: "/".to_string(), has_manifest: false },
    ];
    let start = "/scratch/dir".to_string();
    let result = locate_project_root(&probes, &start);
    match &result {
        Err(Error::UnableToFindProjectRoot { path }) => assert_eq!(path, "/scratch/dir"),
        other => panic!("unexpected: {other:?}"),
    }
    let outcome: Result<(), Error> = result.map(|_| ());
    assert_eq!(exit_code(&outcome), 1);
}

#[test]
fn successful_build_runs_exactly_two_stages() {
    let plan = plan_of(&["build"]);
    let mut run = PipelineRun::start(plan);
    let mut performed = Vec::new();
    while let Some(action) = run.next_action() {
        performed.push(action);
        run.apply(StageOutcome::Success);
    }
    assert_eq!(performed, vec![StageAction::ResolveDeps, StageAction::Compile]);
    assert!(run.result().is_ok());
}
