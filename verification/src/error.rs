//! The error taxonomy of the dispatch layer and its mapping to an exit
//! status: usage errors caught before any stage runs, a missing project
//! root, and opaque stage failures forwarded from a collaborator.

use vstd::prelude::*;
use vstd::string::*;
use crate::strutil::concat_str;

verus! {

/// A malformed command line, reported before any other component runs.
#[derive(Debug, Clone, PartialEq, Eq)]
pub enum UsageError {
    /// No subcommand was given at all.
    MissingCommand,
    /// The first token names no known subcommand.
    UnknownCommand { got: String },
    /// A subcommand that needs a nested subcommand got none.
    MissingSubcommand { command: String },
    /// A token shaped like a flag that the subcommand does not define.
    UnknownFlag { flag: String },
    /// A flag that takes a value stood last on the line.
    MissingValue { flag: String },
    /// A flag was given more than once.
    DuplicateFlag { flag: String },
    /// A value that is not among the choices the flag admits.
    InvalidValue { flag: String, value: String, choices: String },
    /// Two flags that exclude each other were both given.
    ConflictingFlags { first: String, second: String },
    /// A required argument was not given.
    MissingArgument { name: String },
    /// A positional argument the subcommand does not take.
    UnexpectedArgument { got: String },
}

/// The pipeline stage a failure came from.
#[derive(Clone, Copy, Debug, PartialEq, Eq, Structural)]
pub enum Stage {
    DependencyResolution,
    Compilation,
    FollowUp,
}

/// A terminal failure of one invocation.
#[derive(Debug, Clone, PartialEq, Eq)]
pub enum Error {
    /// The command line failed validation.
    Usage(UsageError),
    /// No ancestor of the working directory holds a project manifest.
    UnableToFindProjectRoot { path: String },
    /// A pipeline stage failed; the diagnostic is forwarded unchanged.
    StageFailed { stage: Stage, diagnostic: String },
}

/// The process exit status an outcome maps to: zero exactly on success,
/// one on every failure.
pub fn exit_code(r: &Result<(), Error>) -> (c: i32)
    ensures
        c == 0 <==> r is Ok,
        r is Err ==> c == 1,
{
    match r {
        Ok(_) => 0,
        Err(_) => 1,
    }
}

/// The diagnostic line a usage error is shown as.
pub open spec fn spec_describe_usage_error(e: UsageError) -> Seq<char> {
    match e {
        UsageError::MissingCommand => "a subcommand is required"@,
        UsageError::UnknownCommand { got } => "unrecognized subcommand: "@ + got@,
        UsageError::MissingSubcommand { command } => "a subcommand is required for: "@ + command@,
        UsageError::UnknownFlag { flag } => "unexpected argument: "@ + flag@,
        UsageError::MissingValue { flag } => "a value is required for: "@ + flag@,
        UsageError::DuplicateFlag { flag } => "the argument cannot be used multiple times: "@
            + flag@,
        UsageError::InvalidValue { flag, value: _, choices } => "invalid value for "@ + flag@
            + ", possible values: "@ + choices@,
        UsageError::ConflictingFlags { first, second: _ } => "the argument cannot be used with: "@
            + first@,
        UsageError::MissingArgument { name } => "the following required argument was not provided: "@
            + name@,
        UsageError::UnexpectedArgument { got } => "unexpected argument: "@ + got@,
    }
}

/// Renders a usage error as a human-readable line.
pub fn describe_usage_error(e: &UsageError) -> (r: String)
    ensures
        r@ == spec_describe_usage_error(*e),
{
    match e {
        UsageError::MissingCommand => String::from_str("a subcommand is required"),
        UsageError::UnknownCommand { got } => concat_str(
            "unrecognized subcommand: ",
            got.as_str(),
        ),
        UsageError::MissingSubcommand { command } => concat_str(
            "a subcommand is required for: ",
            command.as_str(),
        ),
        UsageError::UnknownFlag { flag } => concat_str("unexpected argument: ", flag.as_str()),
        UsageError::MissingValue { flag } => concat_str(
            "a value is required for: ",
            flag.as_str(),
        ),
        UsageError::DuplicateFlag { flag } => concat_str(
            "the argument cannot be used multiple times: ",
            flag.as_str(),
        ),
        UsageError::InvalidValue { flag, value: _, choices } => {
            let mut s = concat_str("invalid value for ", flag.as_str());
            s.append(", possible values: ");
            s.append(choices.as_str());
            s
        },
        UsageError::ConflictingFlags { first, second: _ } => concat_str(
            "the argument cannot be used with: ",
            first.as_str(),
        ),
        UsageError::MissingArgument { name } => concat_str(
            "the following required argument was not provided: ",
            name.as_str(),
        ),
        UsageError::UnexpectedArgument { got } => concat_str(
            "unexpected argument: ",
            got.as_str(),
        ),
    }
}

/// The diagnostic a terminal failure is shown as. A stage failure is shown
/// as the collaborator's own diagnostic, unchanged.
pub open spec fn spec_describe_error(e: Error) -> Seq<char> {
    match e {
        Error::Usage(u) => spec_describe_usage_error(u),
        Error::UnableToFindProjectRoot { path } => "could not find a gleam project from: "@
            + path@,
        Error::StageFailed { stage: _, diagnostic } => diagnostic@,
    }
}

/// Renders a terminal failure as a human-readable diagnostic.
pub fn describe_error(e: &Error) -> (r: String)
    ensures
        r@ == spec_describe_error(*e),
{
    match e {
        Error::Usage(u) => describe_usage_error(u),
        Error::UnableToFindProjectRoot { path } => concat_str(
            "could not find a gleam project from: ",
            path.as_str(),
        ),
        Error::StageFailed { stage: _, diagnostic } => diagnostic.clone(),
    }
}

} // verus!
