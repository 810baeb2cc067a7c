//! The command model: a closed set of command variants, each carrying only
//! its own validated options. The orchestrator only ever sees a value of
//! this type; invalid input never reaches it.

use vstd::prelude::*;
use crate::platform::{RetirementReason, Runtime, Target, Template};

verus! {

/// Options of the commands that update dependency packages.
#[derive(Debug, Clone, PartialEq, Eq)]
pub struct UpdateOptions {
    /// Names of the packages to update; empty means all of them.
    pub packages: Vec<String>,
}

/// Options of the dependency-tree view. The two fields exclude each other;
/// the parser never produces both.
#[derive(Debug, Clone, PartialEq, Eq)]
pub struct TreeOptions {
    /// Package to be used as the root of the tree.
    pub package: Option<String>,
    /// Invert the tree direction and focus on the given package.
    pub invert: Option<String>,
}

/// Options of the command that creates a new project.
#[derive(Debug, Clone, PartialEq, Eq)]
pub struct NewOptions {
    /// Location of the project root.
    pub project_root: String,
    /// Name of the project.
    pub name: Option<String>,
    /// The project template to instantiate.
    pub template: Template,
    /// Skip git initialization and creation of ignore and workflow files.
    pub skip_git: bool,
    /// Skip creation of workflow files only.
    pub skip_github: bool,
}

/// Options of the low-level single-package compilation command.
#[derive(Debug, Clone, PartialEq, Eq)]
pub struct CompilePackage {
    /// The compilation target for the generated code.
    pub target: Target,
    /// The directory of the package to compile.
    pub package_directory: String,
    /// The directory to write the compiled package to.
    pub output_directory: String,
    /// A directory of precompiled dependencies.
    pub libraries_directory: String,
    /// Location of the JavaScript prelude module, relative to the output
    /// directory; required when compiling to JavaScript.
    pub javascript_prelude: Option<String>,
    /// Skip bytecode compilation of the generated Erlang.
    pub skip_beam_compilation: bool,
}

/// What to export from the project.
#[derive(Debug, Clone, PartialEq, Eq)]
pub enum ExportTarget {
    /// Precompiled Erlang, suitable for deployment.
    ErlangShipment,
    /// The package bundled into a tarball, suitable for publishing.
    HexTarball,
    /// The JavaScript prelude module.
    JavascriptPrelude,
    /// The TypeScript prelude module.
    TypescriptPrelude,
    /// Information on the modules, functions and types, as JSON.
    PackageInterface { output: String },
    /// The package configuration, as JSON.
    PackageInformation { output: String },
}

/// The documentation subcommands.
#[derive(Debug, Clone, PartialEq, Eq)]
pub enum Docs {
    /// Render the documentation locally.
    Build { open: bool, target: Option<Target> },
    /// Publish the documentation.
    Publish,
    /// Remove published documentation.
    Remove { package: String, version: String },
}

/// The dependency subcommands.
#[derive(Debug, Clone, PartialEq, Eq)]
pub enum Dependencies {
    /// List all dependency packages.
    List,
    /// Download all dependency packages.
    Download,
    /// List all outdated dependencies.
    Outdated,
    /// Update dependency packages to their latest versions.
    Update(UpdateOptions),
    /// Show the tree of all dependency packages.
    Tree(TreeOptions),
}

/// The package-repository ownership subcommands.
#[derive(Debug, Clone, PartialEq, Eq)]
pub enum Owner {
    /// Transfer ownership of a package to another user.
    Transfer { package: String, username_or_email: String },
}

/// The package-repository subcommands.
#[derive(Debug, Clone, PartialEq, Eq)]
pub enum Hex {
    /// Retire a release.
    Retire {
        package: String,
        version: String,
        reason: RetirementReason,
        message: Option<String>,
    },
    /// Un-retire a release.
    Unretire { package: String, version: String },
    /// Revert a release.
    Revert { package: Option<String>, version: Option<String> },
    /// Deal with package ownership.
    Owner(Owner),
    /// Authenticate with the package repository.
    Authenticate,
}

/// One invocation's command, exactly one variant per invocation.
#[derive(Debug, Clone, PartialEq, Eq)]
pub enum Command {
    /// Build the project.
    Build { warnings_as_errors: bool, target: Option<Target>, no_print_progress: bool },
    /// Type check the project.
    Check { target: Option<Target> },
    /// Publish the project to the package repository.
    Publish { replace: bool, yes: bool },
    /// Render documentation.
    Docs(Docs),
    /// Work with dependency packages.
    Deps(Dependencies),
    /// Update dependency packages to their latest versions.
    Update(UpdateOptions),
    /// Work with the package manager.
    Hex(Hex),
    /// Create a new project.
    New(NewOptions),
    /// Format source code.
    Format { files: Vec<String>, stdin: bool, check: bool },
    /// Rewrite deprecated code.
    Fix,
    /// Start a shell with the compiled code loaded.
    Shell,
    /// Run the project's source entry point.
    Run {
        target: Option<Target>,
        runtime: Option<Runtime>,
        module: Option<String>,
        no_print_progress: bool,
        arguments: Vec<String>,
    },
    /// Run the project's test entry point.
    Test { target: Option<Target>, runtime: Option<Runtime>, arguments: Vec<String> },
    /// Run the project's development entry point.
    Dev { target: Option<Target>, runtime: Option<Runtime>, arguments: Vec<String> },
    /// Compile a single package; a low-level building block for other tools.
    CompilePackage(CompilePackage),
    /// Read and print the project configuration for debugging.
    PrintConfig,
    /// Add new dependencies.
    Add { packages: Vec<String>, dev: bool },
    /// Remove project dependencies.
    Remove { packages: Vec<String> },
    /// Delete the build artifacts of the project.
    Clean,
    /// Run the language server, to be used by editors.
    LanguageServer,
    /// Export something useful from the project.
    Export(ExportTarget),
}

} // verus!
