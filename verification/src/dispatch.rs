//! Dispatch: what a validated command commits the process to. A compiling
//! command (build, check, run, test, dev) is turned into a pipeline plan;
//! every other command is handed to its collaborator as it is. Dispatch
//! also decides which commands need a project context at all.

use vstd::prelude::*;
use crate::command::{Command, Dependencies, Docs, ExportTarget, Hex};
use crate::options::{spec_build_options, spec_check_options, spec_run_options, build_options,
    check_options, run_options};
use crate::pipeline::{BuildPlan, Followup, Telemetry, dependency_download_config,
    spec_dependency_download_config};
use crate::platform::Which;

verus! {

/// What an invocation does once its command is validated: drive the
/// compilation pipeline, or hand the command to its collaborator.
#[derive(Debug, PartialEq, Eq)]
pub enum CommandPlan {
    /// Resolve dependencies, compile, then run the plan's follow-up.
    Pipeline(BuildPlan),
    /// The command's work is a single collaborator call; it is handed over
    /// unchanged.
    Delegated(Command),
}

/// The plan each command commits to. Check compiles with dependency-only
/// code generation and a visible reporter; build honours its flags and
/// silences the reporter when asked to; run, test and dev compile and then
/// execute their entry point, test and dev always with a visible reporter
/// and no module override.
pub open spec fn spec_plan_for(cmd: Command) -> CommandPlan {
    match cmd {
        Command::Build { warnings_as_errors, target, no_print_progress } => CommandPlan::Pipeline(
            BuildPlan {
                options: spec_build_options(target, warnings_as_errors, no_print_progress),
                dependency_config: spec_dependency_download_config(),
                telemetry: if no_print_progress {
                    Telemetry::Null
                } else {
                    Telemetry::Reporter
                },
                followup: Followup::NoFollowup,
            },
        ),
        Command::Check { target } => CommandPlan::Pipeline(
            BuildPlan {
                options: spec_check_options(target),
                dependency_config: spec_dependency_download_config(),
                telemetry: Telemetry::Reporter,
                followup: Followup::NoFollowup,
            },
        ),
        Command::Run { target, runtime, module, no_print_progress, arguments } => CommandPlan::Pipeline(
            BuildPlan {
                options: spec_run_options(target, no_print_progress),
                dependency_config: spec_dependency_download_config(),
                telemetry: if no_print_progress {
                    Telemetry::Null
                } else {
                    Telemetry::Reporter
                },
                followup: Followup::RunModule { which: Which::Src, module, runtime, arguments },
            },
        ),
        Command::Test { target, runtime, arguments } => CommandPlan::Pipeline(
            BuildPlan {
                options: spec_run_options(target, false),
                dependency_config: spec_dependency_download_config(),
                telemetry: Telemetry::Reporter,
                followup: Followup::RunModule {
                    which: Which::Test,
                    module: None,
                    runtime,
                    arguments,
                },
            },
        ),
        Command::Dev { target, runtime, arguments } => CommandPlan::Pipeline(
            BuildPlan {
                options: spec_run_options(target, false),
                dependency_config: spec_dependency_download_config(),
                telemetry: Telemetry::Reporter,
                followup: Followup::RunModule {
                    which: Which::Dev,
                    module: None,
                    runtime,
                    arguments,
                },
            },
        ),
        _ => CommandPlan::Delegated(cmd),
    }
}

/// Turns a validated command into its plan.
pub fn plan_for(cmd: Command) -> (r: CommandPlan)
    ensures
        r == spec_plan_for(cmd),
{
    match cmd {
        Command::Build { warnings_as_errors, target, no_print_progress } => CommandPlan::Pipeline(
            BuildPlan {
                options: build_options(target, warnings_as_errors, no_print_progress),
                dependency_config: dependency_download_config(),
                telemetry: if no_print_progress {
                    Telemetry::Null
                } else {
                    Telemetry::Reporter
                },
                followup: Followup::NoFollowup,
            },
        ),
        Command::Check { target } => CommandPlan::Pipeline(
            BuildPlan {
                options: check_options(target),
                dependency_config: dependency_download_config(),
                telemetry: Telemetry::Reporter,
                followup: Followup::NoFollowup,
            },
        ),
        Command::Run { target, runtime, module, no_print_progress, arguments } => {
            let telemetry = if no_print_progress {
                Telemetry::Null
            } else {
                Telemetry::Reporter
            };
            CommandPlan::Pipeline(
                BuildPlan {
                    options: run_options(target, no_print_progress),
                    dependency_config: dependency_download_config(),
                    telemetry,
                    followup: Followup::RunModule { which: Which::Src, module, runtime, arguments },
                },
            )
        },
        Command::Test { target, runtime, arguments } => CommandPlan::Pipeline(
            BuildPlan {
                options: run_options(target, false),
                dependency_config: dependency_download_config(),
                telemetry: Telemetry::Reporter,
                followup: Followup::RunModule {
                    which: Which::Test,
                    module: None,
                    runtime,
                    arguments,
                },
            },
        ),
        Command::Dev { target, runtime, arguments } => CommandPlan::Pipeline(
            BuildPlan {
                options: run_options(target, false),
                dependency_config: dependency_download_config(),
                telemetry: Telemetry::Reporter,
                followup: Followup::RunModule {
                    which: Which::Dev,
                    module: None,
                    runtime,
                    arguments,
                },
            },
        ),
        other => CommandPlan::Delegated(other),
    }
}

/// The check command never writes full build artifacts and never treats
/// warnings as failures: whatever target it was given, its plan compiles
/// with dependency-only code generation and warnings kept non-fatal.
pub proof fn lemma_check_plan_policy(target: Option<crate::platform::Target>)
    ensures
        spec_plan_for(Command::Check { target }) matches CommandPlan::Pipeline(p)
            && p.options.codegen == crate::platform::Codegen::DepsOnly
            && p.options.warnings_as_errors == false,
{
}

/// Which commands operate on an existing project and so need its root
/// resolved first. Project-independent commands (creating a project,
/// formatting files, registry commands that name their package explicitly,
/// the prelude exports, the language server, single-package compilation)
/// need none.
pub open spec fn spec_requires_project(cmd: Command) -> bool {
    match cmd {
        Command::Build { .. } => true,
        Command::Check { .. } => true,
        Command::Publish { .. } => true,
        Command::Docs(d) => match d {
            Docs::Build { .. } => true,
            Docs::Publish => true,
            Docs::Remove { .. } => false,
        },
        Command::Deps(_) => true,
        Command::Update(_) => true,
        Command::Hex(h) => match h {
            Hex::Revert { .. } => true,
            _ => false,
        },
        Command::New(_) => false,
        Command::Format { .. } => false,
        Command::Fix => true,
        Command::Shell => true,
        Command::Run { .. } => true,
        Command::Test { .. } => true,
        Command::Dev { .. } => true,
        Command::CompilePackage(_) => false,
        Command::PrintConfig => true,
        Command::Add { .. } => true,
        Command::Remove { .. } => true,
        Command::Clean => true,
        Command::LanguageServer => false,
        Command::Export(e) => match e {
            ExportTarget::ErlangShipment => true,
            ExportTarget::HexTarball => true,
            ExportTarget::JavascriptPrelude => false,
            ExportTarget::TypescriptPrelude => false,
            ExportTarget::PackageInterface { .. } => true,
            ExportTarget::PackageInformation { .. } => true,
        },
    }
}

/// Decides whether a command needs the project root resolved.
pub fn requires_project(cmd: &Command) -> (r: bool)
    ensures
        r == spec_requires_project(*cmd),
{
    match cmd {
        Command::Build { .. } => true,
        Command::Check { .. } => true,
        Command::Publish { .. } => true,
        Command::Docs(d) => match d {
            Docs::Build { .. } => true,
            Docs::Publish => true,
            Docs::Remove { .. } => false,
        },
        Command::Deps(_) => true,
        Command::Update(_) => true,
        Command::Hex(h) => match h {
            Hex::Revert { .. } => true,
            _ => false,
        },
        Command::New(_) => false,
        Command::Format { .. } => false,
        Command::Fix => true,
        Command::Shell => true,
        Command::Run { .. } => true,
        Command::Test { .. } => true,
        Command::Dev { .. } => true,
        Command::CompilePackage(_) => false,
        Command::PrintConfig => true,
        Command::Add { .. } => true,
        Command::Remove { .. } => true,
        Command::Clean => true,
        Command::LanguageServer => false,
        Command::Export(e) => match e {
            ExportTarget::ErlangShipment => true,
            ExportTarget::HexTarball => true,
            ExportTarget::JavascriptPrelude => false,
            ExportTarget::TypescriptPrelude => false,
            ExportTarget::PackageInterface { .. } => true,
            ExportTarget::PackageInformation { .. } => true,
        },
    }
}

} // verus!
