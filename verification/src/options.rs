//! The immutable configuration record the compilation pipeline consumes,
//! and the policy that assembles it for each command. The record is fully
//! determined by the command variant and its options; nothing else feeds it.

use vstd::prelude::*;
use crate::platform::{Codegen, Compile, Mode, Target, TargetSupport};

verus! {

/// Configuration consumed by the compilation pipeline. Constructed fresh
/// per command; never mutated after construction.
#[derive(Clone, Copy, Debug, PartialEq, Eq)]
pub struct Options {
    pub root_target_support: TargetSupport,
    pub warnings_as_errors: bool,
    pub codegen: Codegen,
    pub compile: Compile,
    pub mode: Mode,
    pub target: Option<Target>,
    pub no_print_progress: bool,
}

/// The configuration a type check uses: dependency-only code generation,
/// warnings never treated as errors, whatever the target override says.
pub open spec fn spec_check_options(target: Option<Target>) -> Options {
    Options {
        root_target_support: TargetSupport::Enforced,
        warnings_as_errors: false,
        codegen: Codegen::DepsOnly,
        compile: Compile::All,
        mode: Mode::Dev,
        target,
        no_print_progress: false,
    }
}

/// Assembles the configuration for the check command. For every input the
/// result generates code for dependencies only and keeps warnings
/// non-fatal.
pub fn check_options(target: Option<Target>) -> (o: Options)
    ensures
        o == spec_check_options(target),
        o.codegen == Codegen::DepsOnly,
        o.warnings_as_errors == false,
{
    Options {
        root_target_support: TargetSupport::Enforced,
        warnings_as_errors: false,
        codegen: Codegen::DepsOnly,
        compile: Compile::All,
        mode: Mode::Dev,
        target,
        no_print_progress: false,
    }
}

/// The configuration a full build uses: full code generation, the
/// warnings-as-errors flag honoured.
pub open spec fn spec_build_options(
    target: Option<Target>,
    warnings_as_errors: bool,
    no_print_progress: bool,
) -> Options {
    Options {
        root_target_support: TargetSupport::Enforced,
        warnings_as_errors,
        codegen: Codegen::All,
        compile: Compile::All,
        mode: Mode::Dev,
        target,
        no_print_progress,
    }
}

/// Assembles the configuration for the build command.
pub fn build_options(
    target: Option<Target>,
    warnings_as_errors: bool,
    no_print_progress: bool,
) -> (o: Options)
    ensures
        o == spec_build_options(target, warnings_as_errors, no_print_progress),
{
    Options {
        root_target_support: TargetSupport::Enforced,
        warnings_as_errors,
        codegen: Codegen::All,
        compile: Compile::All,
        mode: Mode::Dev,
        target,
        no_print_progress,
    }
}

/// The configuration the execution commands share; run, test and dev differ
/// only in the entry point they select afterwards.
pub open spec fn spec_run_options(target: Option<Target>, no_print_progress: bool) -> Options {
    Options {
        root_target_support: TargetSupport::Enforced,
        warnings_as_errors: false,
        codegen: Codegen::All,
        compile: Compile::All,
        mode: Mode::Dev,
        target,
        no_print_progress,
    }
}

/// Assembles the configuration for the run, test and dev commands.
pub fn run_options(target: Option<Target>, no_print_progress: bool) -> (o: Options)
    ensures
        o == spec_run_options(target, no_print_progress),
{
    Options {
        root_target_support: TargetSupport::Enforced,
        warnings_as_errors: false,
        codegen: Codegen::All,
        compile: Compile::All,
        mode: Mode::Dev,
        target,
        no_print_progress,
    }
}

} // verus!
