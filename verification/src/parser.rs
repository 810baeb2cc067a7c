//! The argument parser: raw process arguments in, exactly one validated
//! command out, or a usage error before any other component runs. Each
//! subcommand's tokens run through the scanner of `args`; the gathered
//! flags are then checked and assembled here. Every parse function carries
//! a contract that pins its result down for every input, including which
//! error each malformed input produces.

use vstd::prelude::*;
use vstd::string::*;
use crate::args::{CmdKind, ScanResult, ScanState, classify, contains_name, empty_state, get_value,
    has_name, lookup, pairs_view, scan, scan_args, scan_err_post, state_of};
use crate::command::{Command, CompilePackage, Dependencies, Docs, ExportTarget, Hex, NewOptions,
    Owner, TreeOptions, UpdateOptions};
use crate::error::UsageError;
use crate::platform::{Runtime, Target, Template, parse_retirement_reason, parse_runtime,
    parse_target, parse_template, spec_parse_retirement_reason, spec_parse_runtime,
    spec_parse_target, spec_parse_template};
use crate::strutil::{flag_shaped, is_flag_token, str_eq};

verus! {

/// The result is the given positional argument reported as unexpected.
pub open spec fn unexpected_arg<T>(r: Result<T, UsageError>, got: Seq<char>) -> bool {
    r matches Err(UsageError::UnexpectedArgument { got: g }) && g@ == got
}

/// The result is the given required argument reported as missing.
pub open spec fn missing_arg<T>(r: Result<T, UsageError>, name: Seq<char>) -> bool {
    r matches Err(UsageError::MissingArgument { name: n }) && n@ == name
}

/// The result is the given value reported as invalid for the given flag,
/// with the valid choices listed.
pub open spec fn invalid_choice<T>(
    r: Result<T, UsageError>,
    flag_name: Seq<char>,
    value: Seq<char>,
    choices: Seq<char>,
) -> bool {
    r matches Err(UsageError::InvalidValue { flag, value: v, choices: c }) && flag@ == flag_name
        && v@ == value && c@ == choices
}

/// The view of an optional string.
pub open spec fn opt_view(o: Option<String>) -> Option<Seq<char>> {
    match o {
        None => None,
        Some(s) => Some(s@),
    }
}

/// A subcommand that takes no arguments: any further token is an error.
pub open spec fn bare_post(
    a: Seq<Seq<char>>,
    i: int,
    cmd: Command,
    r: Result<Command, UsageError>,
) -> bool {
    if i >= a.len() {
        r == Ok::<Command, UsageError>(cmd)
    } else if flag_shaped(a[i]) {
        r matches Err(UsageError::UnknownFlag { flag }) && flag@ == a[i]
    } else {
        unexpected_arg(r, a[i])
    }
}

/// Accepts a subcommand that takes no arguments.
fn parse_bare(args: &Vec<String>, start: usize, cmd: Command) -> (r: Result<Command, UsageError>)
    ensures
        bare_post(args.deep_view(), start as int, cmd, r),
{
    if start < args.len() {
        let t = &args[start];
        if is_flag_token(t.as_str()) {
            return Err(UsageError::UnknownFlag { flag: t.clone() });
        }
        return Err(UsageError::UnexpectedArgument { got: t.clone() });
    }
    Ok(cmd)
}

/// How the optional target flag resolves: absent, a valid target, or the
/// invalid value reported with the choices.
pub open spec fn target_post(
    vals: Seq<(Seq<char>, Seq<char>)>,
    r: Result<Option<Target>, UsageError>,
) -> bool {
    match lookup(vals, "--target"@) {
        None => r == Ok::<Option<Target>, UsageError>(None),
        Some(v) => match spec_parse_target(v) {
            None => invalid_choice(r, "--target"@, v, "erlang|javascript"@),
            Some(t) => r == Ok::<Option<Target>, UsageError>(Some(t)),
        },
    }
}

/// Resolves the optional target flag.
fn take_target(res: &ScanResult) -> (r: Result<Option<Target>, UsageError>)
    ensures
        target_post(pairs_view(res.values@), r),
{
    match get_value(&res.values, "--target") {
        None => Ok(None),
        Some(s) => match parse_target(s.as_str()) {
            Some(t) => Ok(Some(t)),
            None => Err(
                UsageError::InvalidValue {
                    flag: String::from_str("--target"),
                    value: s,
                    choices: String::from_str("erlang|javascript"),
                },
            ),
        },
    }
}

/// How the optional runtime flag resolves.
pub open spec fn runtime_post(
    vals: Seq<(Seq<char>, Seq<char>)>,
    r: Result<Option<Runtime>, UsageError>,
) -> bool {
    match lookup(vals, "--runtime"@) {
        None => r == Ok::<Option<Runtime>, UsageError>(None),
        Some(v) => match spec_parse_runtime(v) {
            None => invalid_choice(r, "--runtime"@, v, "nodejs|deno|bun"@),
            Some(t) => r == Ok::<Option<Runtime>, UsageError>(Some(t)),
        },
    }
}

/// Resolves the optional runtime flag.
fn take_runtime(res: &ScanResult) -> (r: Result<Option<Runtime>, UsageError>)
    ensures
        runtime_post(pairs_view(res.values@), r),
{
    match get_value(&res.values, "--runtime") {
        None => Ok(None),
        Some(s) => match parse_runtime(s.as_str()) {
            Some(t) => Ok(Some(t)),
            None => Err(
                UsageError::InvalidValue {
                    flag: String::from_str("--runtime"),
                    value: s,
                    choices: String::from_str("nodejs|deno|bun"),
                },
            ),
        },
    }
}

/// Fetches a required valued flag, or reports it missing.
fn take_required(res: &ScanResult, name: &str) -> (r: Result<String, UsageError>)
    ensures
        lookup(pairs_view(res.values@), name@) matches Some(v) ==> (r matches Ok(s) && s@ == v),
        lookup(pairs_view(res.values@), name@) is None ==> missing_arg(r, name@),
{
    match get_value(&res.values, name) {
        Some(s) => Ok(s),
        None => Err(UsageError::MissingArgument { name: String::from_str(name) }),
    }
}

/// The build command: warnings-as-errors and progress flags, an optional
/// target, no positional arguments.
pub open spec fn build_post(a: Seq<Seq<char>>, i: int, r: Result<Command, UsageError>) -> bool {
    match scan(CmdKind::Build, a, i, empty_state(), false) {
        Err(e) => scan_err_post(CmdKind::Build, a, e, r),
        Ok(st) => if st.positionals.len() > 0 {
            unexpected_arg(r, st.positionals[0])
        } else {
            match lookup(st.values, "--target"@) {
                Some(v) => match spec_parse_target(v) {
                    None => invalid_choice(r, "--target"@, v, "erlang|javascript"@),
                    Some(t) => build_ok(st, Some(t), r),
                },
                None => build_ok(st, None, r),
            }
        },
    }
}

/// The successful build command assembled from a finished scan.
pub open spec fn build_ok(
    st: ScanState,
    t: Option<Target>,
    r: Result<Command, UsageError>,
) -> bool {
    r matches Ok(Command::Build { warnings_as_errors, target, no_print_progress })
        && warnings_as_errors == contains_name(st.bools, "--warnings-as-errors"@) && target == t
        && no_print_progress == contains_name(st.bools, "--no-print-progress"@)
}

/// Parses the build command.
pub fn parse_build(args: &Vec<String>, start: usize) -> (r: Result<Command, UsageError>)
    requires
        start <= args@.len(),
    ensures
        build_post(args.deep_view(), start as int, r),
{
    let res = match scan_args(CmdKind::Build, args, start, false) {
        Err(e) => return Err(e),
        Ok(res) => res,
    };
    if res.positionals.len() > 0 {
        return Err(UsageError::UnexpectedArgument { got: res.positionals[0].clone() });
    }
    let target = match take_target(&res) {
        Ok(t) => t,
        Err(e) => return Err(e),
    };
    let warnings_as_errors = has_name(&res.bools, "--warnings-as-errors");
    let no_print_progress = has_name(&res.bools, "--no-print-progress");
    Ok(Command::Build { warnings_as_errors, target, no_print_progress })
}

/// The check command: an optional target, nothing else.
pub open spec fn check_post(a: Seq<Seq<char>>, i: int, r: Result<Command, UsageError>) -> bool {
    match scan(CmdKind::Check, a, i, empty_state(), false) {
        Err(e) => scan_err_post(CmdKind::Check, a, e, r),
        Ok(st) => if st.positionals.len() > 0 {
            unexpected_arg(r, st.positionals[0])
        } else {
            match lookup(st.values, "--target"@) {
                Some(v) => match spec_parse_target(v) {
                    None => invalid_choice(r, "--target"@, v, "erlang|javascript"@),
                    Some(t) => r matches Ok(Command::Check { target }) && target == Some(t),
                },
                None => r matches Ok(Command::Check { target }) && target is None,
            }
        },
    }
}

/// Parses the check command.
pub fn parse_check(args: &Vec<String>, start: usize) -> (r: Result<Command, UsageError>)
    requires
        start <= args@.len(),
    ensures
        check_post(args.deep_view(), start as int, r),
{
    let res = match scan_args(CmdKind::Check, args, start, false) {
        Err(e) => return Err(e),
        Ok(res) => res,
    };
    if res.positionals.len() > 0 {
        return Err(UsageError::UnexpectedArgument { got: res.positionals[0].clone() });
    }
    let target = match take_target(&res) {
        Ok(t) => t,
        Err(e) => return Err(e),
    };
    Ok(Command::Check { target })
}

/// The publish command: two boolean flags.
pub open spec fn publish_post(a: Seq<Seq<char>>, i: int, r: Result<Command, UsageError>) -> bool {
    match scan(CmdKind::Publish, a, i, empty_state(), false) {
        Err(e) => scan_err_post(CmdKind::Publish, a, e, r),
        Ok(st) => if st.positionals.len() > 0 {
            unexpected_arg(r, st.positionals[0])
        } else {
            r matches Ok(Command::Publish { replace, yes }) && replace == contains_name(
                st.bools,
                "--replace"@,
            ) && yes == contains_name(st.bools, "--yes"@)
        },
    }
}

/// Parses the publish command.
pub fn parse_publish(args: &Vec<String>, start: usize) -> (r: Result<Command, UsageError>)
    requires
        start <= args@.len(),
    ensures
        publish_post(args.deep_view(), start as int, r),
{
    let res = match scan_args(CmdKind::Publish, args, start, false) {
        Err(e) => return Err(e),
        Ok(res) => res,
    };
    if res.positionals.len() > 0 {
        return Err(UsageError::UnexpectedArgument { got: res.positionals[0].clone() });
    }
    let replace = has_name(&res.bools, "--replace");
    let yes = has_name(&res.bools, "--yes");
    Ok(Command::Publish { replace, yes })
}

/// An execution command: optional target and runtime, for the run command
/// also an optional module and the progress flag; every token after the
/// first positional is captured verbatim as a pass-through argument.
pub open spec fn run_like_post(
    k: CmdKind,
    a: Seq<Seq<char>>,
    i: int,
    r: Result<Command, UsageError>,
) -> bool {
    match scan(k, a, i, empty_state(), true) {
        Err(e) => scan_err_post(k, a, e, r),
        Ok(st) => match lookup(st.values, "--target"@) {
            Some(v) => match spec_parse_target(v) {
                None => invalid_choice(r, "--target"@, v, "erlang|javascript"@),
                Some(t) => run_like_target_ok(k, st, Some(t), r),
            },
            None => run_like_target_ok(k, st, None, r),
        },
    }
}

/// An execution command whose target flag resolved; the runtime flag is
/// resolved next.
pub open spec fn run_like_target_ok(
    k: CmdKind,
    st: ScanState,
    t: Option<Target>,
    r: Result<Command, UsageError>,
) -> bool {
    match lookup(st.values, "--runtime"@) {
        Some(v) => match spec_parse_runtime(v) {
            None => invalid_choice(r, "--runtime"@, v, "nodejs|deno|bun"@),
            Some(rt) => run_like_ok(k, st, t, Some(rt), r),
        },
        None => run_like_ok(k, st, t, None, r),
    }
}

/// The successful execution command assembled from a finished scan.
pub open spec fn run_like_ok(
    k: CmdKind,
    st: ScanState,
    t: Option<Target>,
    rt: Option<Runtime>,
    r: Result<Command, UsageError>,
) -> bool {
    match k {
        CmdKind::Run => r matches Ok(
            Command::Run { target, runtime, module, no_print_progress, arguments },
        ) && target == t && runtime == rt && opt_view(module) == lookup(st.values, "--module"@)
            && no_print_progress == contains_name(st.bools, "--no-print-progress"@)
            && arguments.deep_view() == st.positionals,
        CmdKind::Test => r matches Ok(Command::Test { target, runtime, arguments }) && target == t
            && runtime == rt && arguments.deep_view() == st.positionals,
        CmdKind::Dev => r matches Ok(Command::Dev { target, runtime, arguments }) && target == t
            && runtime == rt && arguments.deep_view() == st.positionals,
        _ => false,
    }
}

/// Parses the run command.
pub fn parse_run(args: &Vec<String>, start: usize) -> (r: Result<Command, UsageError>)
    requires
        start <= args@.len(),
    ensures
        run_like_post(CmdKind::Run, args.deep_view(), start as int, r),
{
    let res = match scan_args(CmdKind::Run, args, start, true) {
        Err(e) => return Err(e),
        Ok(res) => res,
    };
    let target = match take_target(&res) {
        Ok(t) => t,
        Err(e) => return Err(e),
    };
    let runtime = match take_runtime(&res) {
        Ok(t) => t,
        Err(e) => return Err(e),
    };
    let module = get_value(&res.values, "--module");
    let no_print_progress = has_name(&res.bools, "--no-print-progress");
    Ok(
        Command::Run {
            target,
            runtime,
            module,
            no_print_progress,
            arguments: res.positionals,
        },
    )
}

/// Parses the test command.
pub fn parse_test(args: &Vec<String>, start: usize) -> (r: Result<Command, UsageError>)
    requires
        start <= args@.len(),
    ensures
        run_like_post(CmdKind::Test, args.deep_view(), start as int, r),
{
    let res = match scan_args(CmdKind::Test, args, start, true) {
        Err(e) => return Err(e),
        Ok(res) => res,
    };
    let target = match take_target(&res) {
        Ok(t) => t,
        Err(e) => return Err(e),
    };
    let runtime = match take_runtime(&res) {
        Ok(t) => t,
        Err(e) => return Err(e),
    };
    Ok(Command::Test { target, runtime, arguments: res.positionals })
}

/// Parses the dev command.
pub fn parse_dev(args: &Vec<String>, start: usize) -> (r: Result<Command, UsageError>)
    requires
        start <= args@.len(),
    ensures
        run_like_post(CmdKind::Dev, args.deep_view(), start as int, r),
{
    let res = match scan_args(CmdKind::Dev, args, start, true) {
        Err(e) => return Err(e),
        Ok(res) => res,
    };
    let target = match take_target(&res) {
        Ok(t) => t,
        Err(e) => return Err(e),
    };
    let runtime = match take_runtime(&res) {
        Ok(t) => t,
        Err(e) => return Err(e),
    };
    Ok(Command::Dev { target, runtime, arguments: res.positionals })
}

/// A bare package list: every token is a package name; flags are rejected.
pub open spec fn packages_post(
    a: Seq<Seq<char>>,
    i: int,
    required: bool,
    r: Result<Vec<String>, UsageError>,
) -> bool {
    match scan(CmdKind::Plain, a, i, empty_state(), false) {
        Err(e) => scan_err_post(CmdKind::Plain, a, e, r),
        Ok(st) => if required && st.positionals.len() == 0 {
            missing_arg(r, "packages"@)
        } else {
            r matches Ok(v) && v.deep_view() == st.positionals
        },
    }
}

/// Collects a package list; with `required`, an empty list is an error.
fn parse_packages(args: &Vec<String>, start: usize, required: bool) -> (r: Result<
    Vec<String>,
    UsageError,
>)
    requires
        start <= args@.len(),
    ensures
        packages_post(args.deep_view(), start as int, required, r),
{
    let res = match scan_args(CmdKind::Plain, args, start, false) {
        Err(e) => return Err(e),
        Ok(res) => res,
    };
    if required && res.positionals.len() == 0 {
        return Err(UsageError::MissingArgument { name: String::from_str("packages") });
    }
    Ok(res.positionals)
}

/// The add command: at least one package, each optionally marked dev-only.
pub open spec fn add_post(a: Seq<Seq<char>>, i: int, r: Result<Command, UsageError>) -> bool {
    match scan(CmdKind::Add, a, i, empty_state(), false) {
        Err(e) => scan_err_post(CmdKind::Add, a, e, r),
        Ok(st) => if st.positionals.len() == 0 {
            missing_arg(r, "packages"@)
        } else {
            r matches Ok(Command::Add { packages, dev }) && packages.deep_view() == st.positionals
                && dev == contains_name(st.bools, "--dev"@)
        },
    }
}

/// Parses the add command.
pub fn parse_add(args: &Vec<String>, start: usize) -> (r: Result<Command, UsageError>)
    requires
        start <= args@.len(),
    ensures
        add_post(args.deep_view(), start as int, r),
{
    let res = match scan_args(CmdKind::Add, args, start, false) {
        Err(e) => return Err(e),
        Ok(res) => res,
    };
    if res.positionals.len() == 0 {
        return Err(UsageError::MissingArgument { name: String::from_str("packages") });
    }
    let dev = has_name(&res.bools, "--dev");
    Ok(Command::Add { packages: res.positionals, dev })
}

/// The dependency-tree view: a root package or an inverted focus package,
/// never both.
pub open spec fn tree_post(a: Seq<Seq<char>>, i: int, r: Result<Command, UsageError>) -> bool {
    match scan(CmdKind::Tree, a, i, empty_state(), false) {
        Err(e) => scan_err_post(CmdKind::Tree, a, e, r),
        Ok(st) => if st.positionals.len() > 0 {
            unexpected_arg(r, st.positionals[0])
        } else if lookup(st.values, "--package"@) is Some && lookup(st.values, "--invert"@)
            is Some {
            r matches Err(UsageError::ConflictingFlags { first, second }) && first@ == "--package"@
                && second@ == "--invert"@
        } else {
            r matches Ok(Command::Deps(Dependencies::Tree(t))) && opt_view(t.package) == lookup(
                st.values,
                "--package"@,
            ) && opt_view(t.invert) == lookup(st.values, "--invert"@)
        },
    }
}

/// Parses the dependency-tree view, rejecting the conflicting pair of
/// flags at parse time.
pub fn parse_tree(args: &Vec<String>, start: usize) -> (r: Result<Command, UsageError>)
    requires
        start <= args@.len(),
    ensures
        tree_post(args.deep_view(), start as int, r),
{
    let res = match scan_args(CmdKind::Tree, args, start, false) {
        Err(e) => return Err(e),
        Ok(res) => res,
    };
    if res.positionals.len() > 0 {
        return Err(UsageError::UnexpectedArgument { got: res.positionals[0].clone() });
    }
    let package = get_value(&res.values, "--package");
    let invert = get_value(&res.values, "--invert");
    if package.is_some() && invert.is_some() {
        return Err(
            UsageError::ConflictingFlags {
                first: String::from_str("--package"),
                second: String::from_str("--invert"),
            },
        );
    }
    Ok(Command::Deps(Dependencies::Tree(TreeOptions { package, invert })))
}

/// The dependency subcommands.
pub open spec fn deps_post(a: Seq<Seq<char>>, r: Result<Command, UsageError>) -> bool {
    if a.len() <= 1 {
        r matches Err(UsageError::MissingSubcommand { command }) && command@ == "deps"@
    } else if a[1] == "list"@ {
        bare_post(a, 2, Command::Deps(Dependencies::List), r)
    } else if a[1] == "download"@ {
        bare_post(a, 2, Command::Deps(Dependencies::Download), r)
    } else if a[1] == "outdated"@ {
        bare_post(a, 2, Command::Deps(Dependencies::Outdated), r)
    } else if a[1] == "update"@ {
        match scan(CmdKind::Plain, a, 2, empty_state(), false) {
            Err(e) => scan_err_post(CmdKind::Plain, a, e, r),
            Ok(st) => r matches Ok(Command::Deps(Dependencies::Update(u))) && u.packages.deep_view()
                == st.positionals,
        }
    } else if a[1] == "tree"@ {
        tree_post(a, 2, r)
    } else {
        r matches Err(UsageError::UnknownCommand { got }) && got@ == a[1]
    }
}

/// Parses the dependency subcommands.
pub fn parse_deps(args: &Vec<String>) -> (r: Result<Command, UsageError>)
    requires
        args@.len() >= 1,
    ensures
        deps_post(args.deep_view(), r),
{
    if args.len() <= 1 {
        return Err(UsageError::MissingSubcommand { command: String::from_str("deps") });
    }
    let sub = &args[1];
    if str_eq(sub.as_str(), "list") {
        parse_bare(args, 2, Command::Deps(Dependencies::List))
    } else if str_eq(sub.as_str(), "download") {
        parse_bare(args, 2, Command::Deps(Dependencies::Download))
    } else if str_eq(sub.as_str(), "outdated") {
        parse_bare(args, 2, Command::Deps(Dependencies::Outdated))
    } else if str_eq(sub.as_str(), "update") {
        match parse_packages(args, 2, false) {
            Err(e) => Err(e),
            Ok(packages) => Ok(Command::Deps(Dependencies::Update(UpdateOptions { packages }))),
        }
    } else if str_eq(sub.as_str(), "tree") {
        parse_tree(args, 2)
    } else {
        Err(UsageError::UnknownCommand { got: sub.clone() })
    }
}

/// The documentation build subcommand: an optional target and a flag to
/// open the result.
pub open spec fn docs_build_post(a: Seq<Seq<char>>, i: int, r: Result<Command, UsageError>) -> bool {
    match scan(CmdKind::DocsBuild, a, i, empty_state(), false) {
        Err(e) => scan_err_post(CmdKind::DocsBuild, a, e, r),
        Ok(st) => if st.positionals.len() > 0 {
            unexpected_arg(r, st.positionals[0])
        } else {
            match lookup(st.values, "--target"@) {
                Some(v) => match spec_parse_target(v) {
                    None => invalid_choice(r, "--target"@, v, "erlang|javascript"@),
                    Some(t) => r matches Ok(Command::Docs(Docs::Build { open, target })) && open
                        == contains_name(st.bools, "--open"@) && target == Some(t),
                },
                None => r matches Ok(Command::Docs(Docs::Build { open, target })) && open
                    == contains_name(st.bools, "--open"@) && target is None,
            }
        },
    }
}

/// The documentation removal subcommand: a required package and version.
pub open spec fn docs_remove_post(
    a: Seq<Seq<char>>,
    i: int,
    r: Result<Command, UsageError>,
) -> bool {
    match scan(CmdKind::DocsRemove, a, i, empty_state(), false) {
        Err(e) => scan_err_post(CmdKind::DocsRemove, a, e, r),
        Ok(st) => if st.positionals.len() > 0 {
            unexpected_arg(r, st.positionals[0])
        } else {
            match lookup(st.values, "--package"@) {
                None => missing_arg(r, "--package"@),
                Some(p) => match lookup(st.values, "--version"@) {
                    None => missing_arg(r, "--version"@),
                    Some(v) => r matches Ok(Command::Docs(Docs::Remove { package, version }))
                        && package@ == p && version@ == v,
                },
            }
        },
    }
}

/// The documentation subcommands.
pub open spec fn docs_post(a: Seq<Seq<char>>, r: Result<Command, UsageError>) -> bool {
    if a.len() <= 1 {
        r matches Err(UsageError::MissingSubcommand { command }) && command@ == "docs"@
    } else if a[1] == "build"@ {
        docs_build_post(a, 2, r)
    } else if a[1] == "publish"@ {
        bare_post(a, 2, Command::Docs(Docs::Publish), r)
    } else if a[1] == "remove"@ {
        docs_remove_post(a, 2, r)
    } else {
        r matches Err(UsageError::UnknownCommand { got }) && got@ == a[1]
    }
}

/// Parses the documentation subcommands.
pub fn parse_docs(args: &Vec<String>) -> (r: Result<Command, UsageError>)
    requires
        args@.len() >= 1,
    ensures
        docs_post(args.deep_view(), r),
{
    if args.len() <= 1 {
        return Err(UsageError::MissingSubcommand { command: String::from_str("docs") });
    }
    let sub = &args[1];
    if str_eq(sub.as_str(), "build") {
        let res = match scan_args(CmdKind::DocsBuild, args, 2, false) {
            Err(e) => return Err(e),
            Ok(res) => res,
        };
        if res.positionals.len() > 0 {
            return Err(UsageError::UnexpectedArgument { got: res.positionals[0].clone() });
        }
        let target = match take_target(&res) {
            Ok(t) => t,
            Err(e) => return Err(e),
        };
        let open = has_name(&res.bools, "--open");
        Ok(Command::Docs(Docs::Build { open, target }))
    } else if str_eq(sub.as_str(), "publish") {
        parse_bare(args, 2, Command::Docs(Docs::Publish))
    } else if str_eq(sub.as_str(), "remove") {
        let res = match scan_args(CmdKind::DocsRemove, args, 2, false) {
            Err(e) => return Err(e),
            Ok(res) => res,
        };
        if res.positionals.len() > 0 {
            return Err(UsageError::UnexpectedArgument { got: res.positionals[0].clone() });
        }
        let package = match take_required(&res, "--package") {
            Ok(s) => s,
            Err(e) => return Err(e),
        };
        let version = match take_required(&res, "--version") {
            Ok(s) => s,
            Err(e) => return Err(e),
        };
        Ok(Command::Docs(Docs::Remove { package, version }))
    } else {
        Err(UsageError::UnknownCommand { got: sub.clone() })
    }
}

/// The release-retirement subcommand: package, version and reason as
/// positionals, an optional message; the reason is matched exactly.
pub open spec fn retire_post(a: Seq<Seq<char>>, i: int, r: Result<Command, UsageError>) -> bool {
    match scan(CmdKind::Plain, a, i, empty_state(), false) {
        Err(e) => scan_err_post(CmdKind::Plain, a, e, r),
        Ok(st) => if st.positionals.len() == 0 {
            missing_arg(r, "package"@)
        } else if st.positionals.len() == 1 {
            missing_arg(r, "version"@)
        } else if st.positionals.len() == 2 {
            missing_arg(r, "reason"@)
        } else if st.positionals.len() > 4 {
            unexpected_arg(r, st.positionals[4])
        } else {
            match spec_parse_retirement_reason(st.positionals[2]) {
                None => invalid_choice(
                    r,
                    "reason"@,
                    st.positionals[2],
                    "other|invalid|security|deprecated|renamed"@,
                ),
                Some(reason) => r matches Ok(
                    Command::Hex(Hex::Retire { package, version, reason: rsn, message }),
                ) && package@ == st.positionals[0] && version@ == st.positionals[1] && rsn == reason
                    && opt_view(message) == (if st.positionals.len() == 4 {
                    Some(st.positionals[3])
                } else {
                    None
                }),
            }
        },
    }
}

/// Parses the release-retirement subcommand.
pub fn parse_retire(args: &Vec<String>, start: usize) -> (r: Result<Command, UsageError>)
    requires
        start <= args@.len(),
    ensures
        retire_post(args.deep_view(), start as int, r),
{
    let mut pos = match scan_args(CmdKind::Plain, args, start, false) {
        Err(e) => return Err(e),
        Ok(res) => res.positionals,
    };
    if pos.len() == 0 {
        return Err(UsageError::MissingArgument { name: String::from_str("package") });
    }
    if pos.len() == 1 {
        return Err(UsageError::MissingArgument { name: String::from_str("version") });
    }
    if pos.len() == 2 {
        return Err(UsageError::MissingArgument { name: String::from_str("reason") });
    }
    if pos.len() > 4 {
        return Err(UsageError::UnexpectedArgument { got: pos[4].clone() });
    }
    let reason = match parse_retirement_reason(pos[2].as_str()) {
        Some(reason) => reason,
        None => return Err(
            UsageError::InvalidValue {
                flag: String::from_str("reason"),
                value: pos[2].clone(),
                choices: String::from_str("other|invalid|security|deprecated|renamed"),
            },
        ),
    };
    let message = if pos.len() == 4 {
        Some(pos.pop().unwrap())
    } else {
        None
    };
    let version = pos[1].clone();
    let package = pos[0].clone();
    Ok(Command::Hex(Hex::Retire { package, version, reason, message }))
}

/// The un-retirement subcommand: exactly a package and a version.
pub open spec fn unretire_post(a: Seq<Seq<char>>, i: int, r: Result<Command, UsageError>) -> bool {
    match scan(CmdKind::Plain, a, i, empty_state(), false) {
        Err(e) => scan_err_post(CmdKind::Plain, a, e, r),
        Ok(st) => if st.positionals.len() == 0 {
            missing_arg(r, "package"@)
        } else if st.positionals.len() == 1 {
            missing_arg(r, "version"@)
        } else if st.positionals.len() > 2 {
            unexpected_arg(r, st.positionals[2])
        } else {
            r matches Ok(Command::Hex(Hex::Unretire { package, version })) && package@
                == st.positionals[0] && version@ == st.positionals[1]
        },
    }
}

/// Parses the un-retirement subcommand.
pub fn parse_unretire(args: &Vec<String>, start: usize) -> (r: Result<Command, UsageError>)
    requires
        start <= args@.len(),
    ensures
        unretire_post(args.deep_view(), start as int, r),
{
    let pos = match scan_args(CmdKind::Plain, args, start, false) {
        Err(e) => return Err(e),
        Ok(res) => res.positionals,
    };
    if pos.len() == 0 {
        return Err(UsageError::MissingArgument { name: String::from_str("package") });
    }
    if pos.len() == 1 {
        return Err(UsageError::MissingArgument { name: String::from_str("version") });
    }
    if pos.len() > 2 {
        return Err(UsageError::UnexpectedArgument { got: pos[2].clone() });
    }
    Ok(Command::Hex(Hex::Unretire { package: pos[0].clone(), version: pos[1].clone() }))
}

/// The release-revert subcommand: an optional package and version.
pub open spec fn revert_post(a: Seq<Seq<char>>, i: int, r: Result<Command, UsageError>) -> bool {
    match scan(CmdKind::Revert, a, i, empty_state(), false) {
        Err(e) => scan_err_post(CmdKind::Revert, a, e, r),
        Ok(st) => if st.positionals.len() > 0 {
            unexpected_arg(r, st.positionals[0])
        } else {
            r matches Ok(Command::Hex(Hex::Revert { package, version })) && opt_view(package)
                == lookup(st.values, "--package"@) && opt_view(version) == lookup(
                st.values,
                "--version"@,
            )
        },
    }
}

/// Parses the release-revert subcommand.
pub fn parse_revert(args: &Vec<String>, start: usize) -> (r: Result<Command, UsageError>)
    requires
        start <= args@.len(),
    ensures
        revert_post(args.deep_view(), start as int, r),
{
    let res = match scan_args(CmdKind::Revert, args, start, false) {
        Err(e) => return Err(e),
        Ok(res) => res,
    };
    if res.positionals.len() > 0 {
        return Err(UsageError::UnexpectedArgument { got: res.positionals[0].clone() });
    }
    let package = get_value(&res.values, "--package");
    let version = get_value(&res.values, "--version");
    Ok(Command::Hex(Hex::Revert { package, version }))
}

/// The ownership-transfer subcommand: a package positional and the new
/// owner behind a required flag.
pub open spec fn transfer_post(a: Seq<Seq<char>>, i: int, r: Result<Command, UsageError>) -> bool {
    match scan(CmdKind::Transfer, a, i, empty_state(), false) {
        Err(e) => scan_err_post(CmdKind::Transfer, a, e, r),
        Ok(st) => if st.positionals.len() == 0 {
            missing_arg(r, "package"@)
        } else if st.positionals.len() > 1 {
            unexpected_arg(r, st.positionals[1])
        } else {
            match lookup(st.values, "--to"@) {
                None => missing_arg(r, "--to"@),
                Some(to) => r matches Ok(
                    Command::Hex(Hex::Owner(Owner::Transfer { package, username_or_email })),
                ) && package@ == st.positionals[0] && username_or_email@ == to,
            }
        },
    }
}

/// Parses the ownership-transfer subcommand.
pub fn parse_transfer(args: &Vec<String>, start: usize) -> (r: Result<Command, UsageError>)
    requires
        start <= args@.len(),
    ensures
        transfer_post(args.deep_view(), start as int, r),
{
    let res = match scan_args(CmdKind::Transfer, args, start, false) {
        Err(e) => return Err(e),
        Ok(res) => res,
    };
    if res.positionals.len() == 0 {
        return Err(UsageError::MissingArgument { name: String::from_str("package") });
    }
    if res.positionals.len() > 1 {
        return Err(UsageError::UnexpectedArgument { got: res.positionals[1].clone() });
    }
    let username_or_email = match take_required(&res, "--to") {
        Ok(s) => s,
        Err(e) => return Err(e),
    };
    let package = res.positionals[0].clone();
    Ok(Command::Hex(Hex::Owner(Owner::Transfer { package, username_or_email })))
}

/// The package-manager subcommands.
pub open spec fn hex_post(a: Seq<Seq<char>>, r: Result<Command, UsageError>) -> bool {
    if a.len() <= 1 {
        r matches Err(UsageError::MissingSubcommand { command }) && command@ == "hex"@
    } else if a[1] == "retire"@ {
        retire_post(a, 2, r)
    } else if a[1] == "unretire"@ {
        unretire_post(a, 2, r)
    } else if a[1] == "revert"@ {
        revert_post(a, 2, r)
    } else if a[1] == "authenticate"@ {
        bare_post(a, 2, Command::Hex(Hex::Authenticate), r)
    } else if a[1] == "owner"@ {
        if a.len() <= 2 {
            r matches Err(UsageError::MissingSubcommand { command }) && command@ == "owner"@
        } else if a[2] == "transfer"@ {
            transfer_post(a, 3, r)
        } else {
            r matches Err(UsageError::UnknownCommand { got }) && got@ == a[2]
        }
    } else {
        r matches Err(UsageError::UnknownCommand { got }) && got@ == a[1]
    }
}

/// Parses the package-manager subcommands.
pub fn parse_hex(args: &Vec<String>) -> (r: Result<Command, UsageError>)
    requires
        args@.len() >= 1,
    ensures
        hex_post(args.deep_view(), r),
{
    if args.len() <= 1 {
        return Err(UsageError::MissingSubcommand { command: String::from_str("hex") });
    }
    let sub = &args[1];
    if str_eq(sub.as_str(), "retire") {
        parse_retire(args, 2)
    } else if str_eq(sub.as_str(), "unretire") {
        parse_unretire(args, 2)
    } else if str_eq(sub.as_str(), "revert") {
        parse_revert(args, 2)
    } else if str_eq(sub.as_str(), "authenticate") {
        parse_bare(args, 2, Command::Hex(Hex::Authenticate))
    } else if str_eq(sub.as_str(), "owner") {
        if args.len() <= 2 {
            return Err(UsageError::MissingSubcommand { command: String::from_str("owner") });
        }
        let sub2 = &args[2];
        if str_eq(sub2.as_str(), "transfer") {
            parse_transfer(args, 3)
        } else {
            Err(UsageError::UnknownCommand { got: sub2.clone() })
        }
    } else {
        Err(UsageError::UnknownCommand { got: sub.clone() })
    }
}

/// The project-creation command: a required root positional, an optional
/// name, a template defaulting to the Erlang one, and two skip flags.
pub open spec fn new_post(a: Seq<Seq<char>>, i: int, r: Result<Command, UsageError>) -> bool {
    match scan(CmdKind::New, a, i, empty_state(), false) {
        Err(e) => scan_err_post(CmdKind::New, a, e, r),
        Ok(st) => if st.positionals.len() == 0 {
            missing_arg(r, "project_root"@)
        } else if st.positionals.len() > 1 {
            unexpected_arg(r, st.positionals[1])
        } else {
            match lookup(st.values, "--template"@) {
                Some(v) => match spec_parse_template(v) {
                    None => invalid_choice(r, "--template"@, v, "erlang|javascript"@),
                    Some(t) => new_ok(st, t, r),
                },
                None => new_ok(st, Template::Erlang, r),
            }
        },
    }
}

/// The successful project-creation command assembled from a finished scan.
pub open spec fn new_ok(st: ScanState, t: Template, r: Result<Command, UsageError>) -> bool {
    r matches Ok(Command::New(o)) && o.project_root@ == st.positionals[0] && opt_view(o.name)
        == lookup(st.values, "--name"@) && o.template == t && o.skip_git == contains_name(
        st.bools,
        "--skip-git"@,
    ) && o.skip_github == contains_name(st.bools, "--skip-github"@)
}

/// Parses the project-creation command.
pub fn parse_new(args: &Vec<String>, start: usize) -> (r: Result<Command, UsageError>)
    requires
        start <= args@.len(),
    ensures
        new_post(args.deep_view(), start as int, r),
{
    let res = match scan_args(CmdKind::New, args, start, false) {
        Err(e) => return Err(e),
        Ok(res) => res,
    };
    if res.positionals.len() == 0 {
        return Err(UsageError::MissingArgument { name: String::from_str("project_root") });
    }
    if res.positionals.len() > 1 {
        return Err(UsageError::UnexpectedArgument { got: res.positionals[1].clone() });
    }
    let template = match get_value(&res.values, "--template") {
        None => Template::Erlang,
        Some(s) => match parse_template(s.as_str()) {
            Some(t) => t,
            None => return Err(
                UsageError::InvalidValue {
                    flag: String::from_str("--template"),
                    value: s,
                    choices: String::from_str("erlang|javascript"),
                },
            ),
        },
    };
    let name = get_value(&res.values, "--name");
    let skip_git = has_name(&res.bools, "--skip-git");
    let skip_github = has_name(&res.bools, "--skip-github");
    let project_root = res.positionals[0].clone();
    Ok(Command::New(NewOptions { project_root, name, template, skip_git, skip_github }))
}

/// The formatting command: files to format (the current directory when
/// none are named), and flags for reading standard input and for checking
/// without rewriting.
pub open spec fn format_post(a: Seq<Seq<char>>, i: int, r: Result<Command, UsageError>) -> bool {
    match scan(CmdKind::Format, a, i, empty_state(), false) {
        Err(e) => scan_err_post(CmdKind::Format, a, e, r),
        Ok(st) => r matches Ok(Command::Format { files, stdin, check }) && stdin == contains_name(
            st.bools,
            "--stdin"@,
        ) && check == contains_name(st.bools, "--check"@) && files.deep_view() == (
        if st.positionals.len() == 0 {
            seq!["."@]
        } else {
            st.positionals
        }),
    }
}

/// Parses the formatting command.
pub fn parse_format(args: &Vec<String>, start: usize) -> (r: Result<Command, UsageError>)
    requires
        start <= args@.len(),
    ensures
        format_post(args.deep_view(), start as int, r),
{
    let res = match scan_args(CmdKind::Format, args, start, false) {
        Err(e) => return Err(e),
        Ok(res) => res,
    };
    let stdin = has_name(&res.bools, "--stdin");
    let check = has_name(&res.bools, "--check");
    let files = if res.positionals.len() == 0 {
        let d = vec![String::from_str(".")];
        proof {
            assert(d.deep_view() =~= seq!["."@]);
        }
        d
    } else {
        res.positionals
    };
    Ok(Command::Format { files, stdin, check })
}

/// The single-package compilation command: target, package, output and
/// library directories all required, an optional prelude path and a flag
/// to skip bytecode compilation.
pub open spec fn compile_package_post(
    a: Seq<Seq<char>>,
    i: int,
    r: Result<Command, UsageError>,
) -> bool {
    match scan(CmdKind::CompilePackage, a, i, empty_state(), false) {
        Err(e) => scan_err_post(CmdKind::CompilePackage, a, e, r),
        Ok(st) => if st.positionals.len() > 0 {
            unexpected_arg(r, st.positionals[0])
        } else {
            match lookup(st.values, "--target"@) {
                None => missing_arg(r, "--target"@),
                Some(v) => match spec_parse_target(v) {
                    None => invalid_choice(r, "--target"@, v, "erlang|javascript"@),
                    Some(t) => match lookup(st.values, "--package"@) {
                        None => missing_arg(r, "--package"@),
                        Some(pkg) => match lookup(st.values, "--out"@) {
                            None => missing_arg(r, "--out"@),
                            Some(out) => match lookup(st.values, "--lib"@) {
                                None => missing_arg(r, "--lib"@),
                                Some(lib) => compile_package_ok(st, t, pkg, out, lib, r),
                            },
                        },
                    },
                },
            }
        },
    }
}

/// The successful single-package compilation command assembled from a
/// finished scan.
pub open spec fn compile_package_ok(
    st: ScanState,
    t: Target,
    pkg: Seq<char>,
    out: Seq<char>,
    lib: Seq<char>,
    r: Result<Command, UsageError>,
) -> bool {
    r matches Ok(Command::CompilePackage(c)) && c.target == t && c.package_directory@ == pkg
        && c.output_directory@ == out && c.libraries_directory@ == lib && opt_view(
        c.javascript_prelude,
    ) == lookup(st.values, "--javascript-prelude"@) && c.skip_beam_compilation == contains_name(
        st.bools,
        "--no-beam"@,
    )
}

/// Parses the single-package compilation command.
pub fn parse_compile_package(args: &Vec<String>, start: usize) -> (r: Result<Command, UsageError>)
    requires
        start <= args@.len(),
    ensures
        compile_package_post(args.deep_view(), start as int, r),
{
    let res = match scan_args(CmdKind::CompilePackage, args, start, false) {
        Err(e) => return Err(e),
        Ok(res) => res,
    };
    if res.positionals.len() > 0 {
        return Err(UsageError::UnexpectedArgument { got: res.positionals[0].clone() });
    }
    let target_value = match take_required(&res, "--target") {
        Ok(s) => s,
        Err(e) => return Err(e),
    };
    let target = match parse_target(target_value.as_str()) {
        Some(t) => t,
        None => return Err(
            UsageError::InvalidValue {
                flag: String::from_str("--target"),
                value: target_value,
                choices: String::from_str("erlang|javascript"),
            },
        ),
    };
    let package_directory = match take_required(&res, "--package") {
        Ok(s) => s,
        Err(e) => return Err(e),
    };
    let output_directory = match take_required(&res, "--out") {
        Ok(s) => s,
        Err(e) => return Err(e),
    };
    let libraries_directory = match take_required(&res, "--lib") {
        Ok(s) => s,
        Err(e) => return Err(e),
    };
    let javascript_prelude = get_value(&res.values, "--javascript-prelude");
    let skip_beam_compilation = has_name(&res.bools, "--no-beam");
    Ok(
        Command::CompilePackage(
            CompilePackage {
                target,
                package_directory,
                output_directory,
                libraries_directory,
                javascript_prelude,
                skip_beam_compilation,
            },
        ),
    )
}

/// An export subcommand that writes to a required output path.
pub open spec fn export_out_post(
    a: Seq<Seq<char>>,
    i: int,
    information: bool,
    r: Result<Command, UsageError>,
) -> bool {
    match scan(CmdKind::ExportOut, a, i, empty_state(), false) {
        Err(e) => scan_err_post(CmdKind::ExportOut, a, e, r),
        Ok(st) => if st.positionals.len() > 0 {
            unexpected_arg(r, st.positionals[0])
        } else {
            match lookup(st.values, "--out"@) {
                None => missing_arg(r, "--out"@),
                Some(out) => if information {
                    r matches Ok(Command::Export(ExportTarget::PackageInformation { output }))
                        && output@ == out
                } else {
                    r matches Ok(Command::Export(ExportTarget::PackageInterface { output }))
                        && output@ == out
                },
            }
        },
    }
}

/// Parses an export subcommand that writes to a required output path.
pub fn parse_export_out(args: &Vec<String>, start: usize, information: bool) -> (r: Result<
    Command,
    UsageError,
>)
    requires
        start <= args@.len(),
    ensures
        export_out_post(args.deep_view(), start as int, information, r),
{
    let res = match scan_args(CmdKind::ExportOut, args, start, false) {
        Err(e) => return Err(e),
        Ok(res) => res,
    };
    if res.positionals.len() > 0 {
        return Err(UsageError::UnexpectedArgument { got: res.positionals[0].clone() });
    }
    let output = match take_required(&res, "--out") {
        Ok(s) => s,
        Err(e) => return Err(e),
    };
    if information {
        Ok(Command::Export(ExportTarget::PackageInformation { output }))
    } else {
        Ok(Command::Export(ExportTarget::PackageInterface { output }))
    }
}

/// The export subcommands.
pub open spec fn export_post(a: Seq<Seq<char>>, r: Result<Command, UsageError>) -> bool {
    if a.len() <= 1 {
        r matches Err(UsageError::MissingSubcommand { command }) && command@ == "export"@
    } else if a[1] == "erlang-shipment"@ {
        bare_post(a, 2, Command::Export(ExportTarget::ErlangShipment), r)
    } else if a[1] == "hex-tarball"@ {
        bare_post(a, 2, Command::Export(ExportTarget::HexTarball), r)
    } else if a[1] == "javascript-prelude"@ {
        bare_post(a, 2, Command::Export(ExportTarget::JavascriptPrelude), r)
    } else if a[1] == "typescript-prelude"@ {
        bare_post(a, 2, Command::Export(ExportTarget::TypescriptPrelude), r)
    } else if a[1] == "package-interface"@ {
        export_out_post(a, 2, false, r)
    } else if a[1] == "package-information"@ {
        export_out_post(a, 2, true, r)
    } else {
        r matches Err(UsageError::UnknownCommand { got }) && got@ == a[1]
    }
}

/// Parses the export subcommands.
pub fn parse_export(args: &Vec<String>) -> (r: Result<Command, UsageError>)
    requires
        args@.len() >= 1,
    ensures
        export_post(args.deep_view(), r),
{
    if args.len() <= 1 {
        return Err(UsageError::MissingSubcommand { command: String::from_str("export") });
    }
    let sub = &args[1];
    if str_eq(sub.as_str(), "erlang-shipment") {
        parse_bare(args, 2, Command::Export(ExportTarget::ErlangShipment))
    } else if str_eq(sub.as_str(), "hex-tarball") {
        parse_bare(args, 2, Command::Export(ExportTarget::HexTarball))
    } else if str_eq(sub.as_str(), "javascript-prelude") {
        parse_bare(args, 2, Command::Export(ExportTarget::JavascriptPrelude))
    } else if str_eq(sub.as_str(), "typescript-prelude") {
        parse_bare(args, 2, Command::Export(ExportTarget::TypescriptPrelude))
    } else if str_eq(sub.as_str(), "package-interface") {
        parse_export_out(args, 2, false)
    } else if str_eq(sub.as_str(), "package-information") {
        parse_export_out(args, 2, true)
    } else {
        Err(UsageError::UnknownCommand { got: sub.clone() })
    }
}

/// The whole command-line grammar: the first token selects the subcommand,
/// the rest is parsed under that subcommand's rules. No subcommand at all,
/// and any unknown first token, are usage errors.
pub open spec fn parse_post(a: Seq<Seq<char>>, r: Result<Command, UsageError>) -> bool {
    if a.len() == 0 {
        r matches Err(UsageError::MissingCommand)
    } else if a[0] == "build"@ {
        build_post(a, 1, r)
    } else if a[0] == "check"@ {
        check_post(a, 1, r)
    } else if a[0] == "publish"@ {
        publish_post(a, 1, r)
    } else if a[0] == "docs"@ {
        docs_post(a, r)
    } else if a[0] == "deps"@ {
        deps_post(a, r)
    } else if a[0] == "update"@ {
        match scan(CmdKind::Plain, a, 1, empty_state(), false) {
            Err(e) => scan_err_post(CmdKind::Plain, a, e, r),
            Ok(st) => r matches Ok(Command::Update(u)) && u.packages.deep_view()
                == st.positionals,
        }
    } else if a[0] == "hex"@ {
        hex_post(a, r)
    } else if a[0] == "new"@ {
        new_post(a, 1, r)
    } else if a[0] == "format"@ {
        format_post(a, 1, r)
    } else if a[0] == "fix"@ {
        bare_post(a, 1, Command::Fix, r)
    } else if a[0] == "shell"@ {
        bare_post(a, 1, Command::Shell, r)
    } else if a[0] == "run"@ {
        run_like_post(CmdKind::Run, a, 1, r)
    } else if a[0] == "test"@ {
        run_like_post(CmdKind::Test, a, 1, r)
    } else if a[0] == "dev"@ {
        run_like_post(CmdKind::Dev, a, 1, r)
    } else if a[0] == "compile-package"@ {
        compile_package_post(a, 1, r)
    } else if a[0] == "print-config"@ {
        bare_post(a, 1, Command::PrintConfig, r)
    } else if a[0] == "add"@ {
        add_post(a, 1, r)
    } else if a[0] == "remove"@ {
        match scan(CmdKind::Plain, a, 1, empty_state(), false) {
            Err(e) => scan_err_post(CmdKind::Plain, a, e, r),
            Ok(st) => if st.positionals.len() == 0 {
                missing_arg(r, "packages"@)
            } else {
                r matches Ok(Command::Remove { packages }) && packages.deep_view()
                    == st.positionals
            },
        }
    } else if a[0] == "clean"@ {
        bare_post(a, 1, Command::Clean, r)
    } else if a[0] == "lsp"@ {
        bare_post(a, 1, Command::LanguageServer, r)
    } else if a[0] == "export"@ {
        export_post(a, r)
    } else {
        r matches Err(UsageError::UnknownCommand { got }) && got@ == a[0]
    }
}

/// Parses one invocation's arguments, the program name excluded. Exactly
/// one validated command comes out, or the usage error the grammar
/// prescribes; nothing else ever sees a malformed command line.
pub fn parse(args: &Vec<String>) -> (r: Result<Command, UsageError>)
    ensures
        parse_post(args.deep_view(), r),
{
    if args.len() == 0 {
        return Err(UsageError::MissingCommand);
    }
    let head = &args[0];
    if str_eq(head.as_str(), "build") {
        parse_build(args, 1)
    } else if str_eq(head.as_str(), "check") {
        parse_check(args, 1)
    } else if str_eq(head.as_str(), "publish") {
        parse_publish(args, 1)
    } else if str_eq(head.as_str(), "docs") {
        parse_docs(args)
    } else if str_eq(head.as_str(), "deps") {
        parse_deps(args)
    } else if str_eq(head.as_str(), "update") {
        match parse_packages(args, 1, false) {
            Err(e) => Err(e),
            Ok(packages) => Ok(Command::Update(UpdateOptions { packages })),
        }
    } else if str_eq(head.as_str(), "hex") {
        parse_hex(args)
    } else if str_eq(head.as_str(), "new") {
        parse_new(args, 1)
    } else if str_eq(head.as_str(), "format") {
        parse_format(args, 1)
    } else if str_eq(head.as_str(), "fix") {
        parse_bare(args, 1, Command::Fix)
    } else if str_eq(head.as_str(), "shell") {
        parse_bare(args, 1, Command::Shell)
    } else if str_eq(head.as_str(), "run") {
        parse_run(args, 1)
    } else if str_eq(head.as_str(), "test") {
        parse_test(args, 1)
    } else if str_eq(head.as_str(), "dev") {
        parse_dev(args, 1)
    } else if str_eq(head.as_str(), "compile-package") {
        parse_compile_package(args, 1)
    } else if str_eq(head.as_str(), "print-config") {
        parse_bare(args, 1, Command::PrintConfig)
    } else if str_eq(head.as_str(), "add") {
        parse_add(args, 1)
    } else if str_eq(head.as_str(), "remove") {
        match parse_packages(args, 1, true) {
            Err(e) => Err(e),
            Ok(packages) => Ok(Command::Remove { packages }),
        }
    } else if str_eq(head.as_str(), "clean") {
        parse_bare(args, 1, Command::Clean)
    } else if str_eq(head.as_str(), "lsp") {
        parse_bare(args, 1, Command::LanguageServer)
    } else if str_eq(head.as_str(), "export") {
        parse_export(args)
    } else {
        Err(UsageError::UnknownCommand { got: head.clone() })
    }
}

} // verus!
