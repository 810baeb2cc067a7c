//! Closed enumerations describing what to build and how: compilation target,
//! execution runtime, entry-point category, and the knobs of the compiler
//! configuration. Each enumeration that is read from the command line has a
//! canonical string form; parsing it is case-insensitive and rejects unknown
//! values instead of defaulting.

use vstd::prelude::*;
use vstd::string::*;
use crate::strutil::{eq_ignore_case, str_eq, str_eq_ignore_case};

verus! {

broadcast use vstd::string::group_string_axioms;

/// Compilation target platform.
#[derive(Clone, Copy, Debug, PartialEq, Eq, Structural)]
pub enum Target {
    Erlang,
    JavaScript,
}

/// Execution runtime for the JavaScript target.
#[derive(Clone, Copy, Debug, PartialEq, Eq, Structural)]
pub enum Runtime {
    NodeJs,
    Deno,
    Bun,
}

/// Entry point category an execution command starts from.
#[derive(Clone, Copy, Debug, PartialEq, Eq, Structural)]
pub enum Which {
    Src,
    Test,
    Dev,
}

/// Project template used when creating a new project.
#[derive(Clone, Copy, Debug, PartialEq, Eq, Structural)]
pub enum Template {
    Erlang,
    JavaScript,
}

/// Reason given when retiring a release from the package repository.
#[derive(Clone, Copy, Debug, PartialEq, Eq, Structural)]
pub enum RetirementReason {
    Other,
    Invalid,
    Security,
    Deprecated,
    Renamed,
}

/// Whether every module of the root package must support the root target.
#[derive(Clone, Copy, Debug, PartialEq, Eq, Structural)]
pub enum TargetSupport {
    Enforced,
    NotEnforced,
}

/// How much code generation a build performs.
#[derive(Clone, Copy, Debug, PartialEq, Eq, Structural)]
pub enum Codegen {
    All,
    DepsOnly,
}

/// How much of the project a build compiles.
#[derive(Clone, Copy, Debug, PartialEq, Eq, Structural)]
pub enum Compile {
    All,
    DepsOnly,
}

/// Build mode.
#[derive(Clone, Copy, Debug, PartialEq, Eq, Structural)]
pub enum Mode {
    Dev,
    Prod,
}

/// The target a string names, up to ASCII case; `None` for unknown values.
pub open spec fn spec_parse_target(s: Seq<char>) -> Option<Target> {
    if eq_ignore_case(s, "erlang"@) {
        Some(Target::Erlang)
    } else if eq_ignore_case(s, "javascript"@) {
        Some(Target::JavaScript)
    } else {
        None
    }
}

/// Parses a compilation target, ignoring ASCII case.
pub fn parse_target(s: &str) -> (r: Option<Target>)
    ensures
        r == spec_parse_target(s@),
{
    if str_eq_ignore_case(s, "erlang") {
        Some(Target::Erlang)
    } else if str_eq_ignore_case(s, "javascript") {
        Some(Target::JavaScript)
    } else {
        None
    }
}

/// The runtime a string names, up to ASCII case; `None` for unknown values.
pub open spec fn spec_parse_runtime(s: Seq<char>) -> Option<Runtime> {
    if eq_ignore_case(s, "nodejs"@) || eq_ignore_case(s, "node"@) {
        Some(Runtime::NodeJs)
    } else if eq_ignore_case(s, "deno"@) {
        Some(Runtime::Deno)
    } else if eq_ignore_case(s, "bun"@) {
        Some(Runtime::Bun)
    } else {
        None
    }
}

/// Parses an execution runtime, ignoring ASCII case.
pub fn parse_runtime(s: &str) -> (r: Option<Runtime>)
    ensures
        r == spec_parse_runtime(s@),
{
    if str_eq_ignore_case(s, "nodejs") || str_eq_ignore_case(s, "node") {
        Some(Runtime::NodeJs)
    } else if str_eq_ignore_case(s, "deno") {
        Some(Runtime::Deno)
    } else if str_eq_ignore_case(s, "bun") {
        Some(Runtime::Bun)
    } else {
        None
    }
}

/// The entry point category a string names, up to ASCII case.
pub open spec fn spec_parse_which(s: Seq<char>) -> Option<Which> {
    if eq_ignore_case(s, "src"@) {
        Some(Which::Src)
    } else if eq_ignore_case(s, "test"@) {
        Some(Which::Test)
    } else if eq_ignore_case(s, "dev"@) {
        Some(Which::Dev)
    } else {
        None
    }
}

/// Parses an entry point category, ignoring ASCII case.
pub fn parse_which(s: &str) -> (r: Option<Which>)
    ensures
        r == spec_parse_which(s@),
{
    if str_eq_ignore_case(s, "src") {
        Some(Which::Src)
    } else if str_eq_ignore_case(s, "test") {
        Some(Which::Test)
    } else if str_eq_ignore_case(s, "dev") {
        Some(Which::Dev)
    } else {
        None
    }
}

/// The template a string names, up to ASCII case.
pub open spec fn spec_parse_template(s: Seq<char>) -> Option<Template> {
    if eq_ignore_case(s, "erlang"@) {
        Some(Template::Erlang)
    } else if eq_ignore_case(s, "javascript"@) {
        Some(Template::JavaScript)
    } else {
        None
    }
}

/// Parses a project template, ignoring ASCII case.
pub fn parse_template(s: &str) -> (r: Option<Template>)
    ensures
        r == spec_parse_template(s@),
{
    if str_eq_ignore_case(s, "erlang") {
        Some(Template::Erlang)
    } else if str_eq_ignore_case(s, "javascript") {
        Some(Template::JavaScript)
    } else {
        None
    }
}

/// The retirement reason a string names; this match is case-sensitive.
pub open spec fn spec_parse_retirement_reason(s: Seq<char>) -> Option<RetirementReason> {
    if s == "other"@ {
        Some(RetirementReason::Other)
    } else if s == "invalid"@ {
        Some(RetirementReason::Invalid)
    } else if s == "security"@ {
        Some(RetirementReason::Security)
    } else if s == "deprecated"@ {
        Some(RetirementReason::Deprecated)
    } else if s == "renamed"@ {
        Some(RetirementReason::Renamed)
    } else {
        None
    }
}

/// Parses a retirement reason; the accepted values are matched exactly.
pub fn parse_retirement_reason(s: &str) -> (r: Option<RetirementReason>)
    ensures
        r == spec_parse_retirement_reason(s@),
{
    if str_eq(s, "other") {
        Some(RetirementReason::Other)
    } else if str_eq(s, "invalid") {
        Some(RetirementReason::Invalid)
    } else if str_eq(s, "security") {
        Some(RetirementReason::Security)
    } else if str_eq(s, "deprecated") {
        Some(RetirementReason::Deprecated)
    } else if str_eq(s, "renamed") {
        Some(RetirementReason::Renamed)
    } else {
        None
    }
}

/// Target values are parsed case-insensitively: two strings equal up to
/// ASCII case name the same target, or both name none.
pub proof fn lemma_parse_target_case_insensitive(a: Seq<char>, b: Seq<char>)
    requires
        eq_ignore_case(a, b),
    ensures
        spec_parse_target(a) == spec_parse_target(b),
{
    crate::strutil::lemma_eq_ignore_case_trans(a, b, "erlang"@);
    crate::strutil::lemma_eq_ignore_case_trans(a, b, "javascript"@);
}

/// Runtime values are parsed case-insensitively.
pub proof fn lemma_parse_runtime_case_insensitive(a: Seq<char>, b: Seq<char>)
    requires
        eq_ignore_case(a, b),
    ensures
        spec_parse_runtime(a) == spec_parse_runtime(b),
{
    crate::strutil::lemma_eq_ignore_case_trans(a, b, "nodejs"@);
    crate::strutil::lemma_eq_ignore_case_trans(a, b, "node"@);
    crate::strutil::lemma_eq_ignore_case_trans(a, b, "deno"@);
    crate::strutil::lemma_eq_ignore_case_trans(a, b, "bun"@);
}

/// Entry point categories are parsed case-insensitively.
pub proof fn lemma_parse_which_case_insensitive(a: Seq<char>, b: Seq<char>)
    requires
        eq_ignore_case(a, b),
    ensures
        spec_parse_which(a) == spec_parse_which(b),
{
    crate::strutil::lemma_eq_ignore_case_trans(a, b, "src"@);
    crate::strutil::lemma_eq_ignore_case_trans(a, b, "test"@);
    crate::strutil::lemma_eq_ignore_case_trans(a, b, "dev"@);
}

/// Templates are parsed case-insensitively.
pub proof fn lemma_parse_template_case_insensitive(a: Seq<char>, b: Seq<char>)
    requires
        eq_ignore_case(a, b),
    ensures
        spec_parse_template(a) == spec_parse_template(b),
{
    crate::strutil::lemma_eq_ignore_case_trans(a, b, "erlang"@);
    crate::strutil::lemma_eq_ignore_case_trans(a, b, "javascript"@);
}

/// The canonical string form of each target parses back to it.
pub proof fn lemma_target_canonical_round_trip()
    ensures
        spec_parse_target("erlang"@) == Some(Target::Erlang),
        spec_parse_target("javascript"@) == Some(Target::JavaScript),
{
    reveal_strlit("erlang");
    reveal_strlit("javascript");
}

/// The canonical string form of each runtime parses back to it.
pub proof fn lemma_runtime_canonical_round_trip()
    ensures
        spec_parse_runtime("nodejs"@) == Some(Runtime::NodeJs),
        spec_parse_runtime("deno"@) == Some(Runtime::Deno),
        spec_parse_runtime("bun"@) == Some(Runtime::Bun),
{
    reveal_strlit("nodejs");
    reveal_strlit("node");
    reveal_strlit("deno");
    reveal_strlit("bun");
    assert("deno"@[0] == 'd' && "node"@[0] == 'n');
    assert(!eq_ignore_case("deno"@, "node"@));
}

/// The canonical string form of each entry point category parses back to
/// it.
pub proof fn lemma_which_canonical_round_trip()
    ensures
        spec_parse_which("src"@) == Some(Which::Src),
        spec_parse_which("test"@) == Some(Which::Test),
        spec_parse_which("dev"@) == Some(Which::Dev),
{
    reveal_strlit("src");
    reveal_strlit("test");
    reveal_strlit("dev");
    assert("dev"@[0] == 'd' && "src"@[0] == 's');
    assert(!eq_ignore_case("dev"@, "src"@));
}

/// Canonical string form of a target.
pub fn target_name(t: Target) -> (r: &'static str)
    ensures
        t == Target::Erlang ==> r@ == "erlang"@,
        t == Target::JavaScript ==> r@ == "javascript"@,
{
    match t {
        Target::Erlang => "erlang",
        Target::JavaScript => "javascript",
    }
}

/// Canonical string form of a runtime.
pub fn runtime_name(t: Runtime) -> (r: &'static str)
    ensures
        t == Runtime::NodeJs ==> r@ == "nodejs"@,
        t == Runtime::Deno ==> r@ == "deno"@,
        t == Runtime::Bun ==> r@ == "bun"@,
{
    match t {
        Runtime::NodeJs => "nodejs",
        Runtime::Deno => "deno",
        Runtime::Bun => "bun",
    }
}

/// Canonical string form of an entry point category.
pub fn which_name(w: Which) -> (r: &'static str)
    ensures
        w == Which::Src ==> r@ == "src"@,
        w == Which::Test ==> r@ == "test"@,
        w == Which::Dev ==> r@ == "dev"@,
{
    match w {
        Which::Src => "src",
        Which::Test => "test",
        Which::Dev => "dev",
    }
}

/// The valid choices for a target value, as shown in diagnostics.
pub fn target_choices() -> (r: &'static str)
    ensures
        r@ == "erlang|javascript"@,
{
    "erlang|javascript"
}

/// The valid choices for a runtime value, as shown in diagnostics.
pub fn runtime_choices() -> (r: &'static str)
    ensures
        r@ == "nodejs|deno|bun"@,
{
    "nodejs|deno|bun"
}

/// The valid choices for a template value, as shown in diagnostics.
pub fn template_choices() -> (r: &'static str)
    ensures
        r@ == "erlang|javascript"@,
{
    "erlang|javascript"
}

/// The valid choices for a retirement reason, as shown in diagnostics.
pub fn retirement_reason_choices() -> (r: &'static str)
    ensures
        r@ == "other|invalid|security|deprecated|renamed"@,
{
    "other|invalid|security|deprecated|renamed"
}

/// Help text for the template option.
pub fn template_doc() -> (r: &'static str)
    ensures
        r@ == "The template to use"@,
{
    "The template to use"
}

/// Help text for the target option.
pub fn target_doc() -> (r: String)
    ensures
        r@ == "The platform to target (erlang|javascript)"@,
{
    String::from_str("The platform to target (erlang|javascript)")
}

/// Help text for the runtime option.
pub fn runtime_doc() -> (r: String)
    ensures
        r@ == "The runtime to target (nodejs|deno|bun)"@,
{
    String::from_str("The runtime to target (nodejs|deno|bun)")
}

} // verus!
