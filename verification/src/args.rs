//! The token scanner under the argument parser. Each subcommand defines a
//! small flag vocabulary; the scanner walks the tokens once, separating
//! boolean flags, valued flags and positional arguments, and rejecting
//! unknown flags, duplicated flags and flags whose value is missing. Its
//! behaviour is specified by the recursive `scan` function and the exec
//! scanner is proved to follow it token by token.

use vstd::prelude::*;
use vstd::string::*;
use crate::error::UsageError;
use crate::strutil::{flag_shaped, is_flag_token, str_eq};

verus! {

/// The subcommand vocabularies the scanner knows. `Plain` admits no flags
/// at all; the others name the flags of one subcommand.
#[derive(Clone, Copy, Debug, PartialEq, Eq)]
pub enum CmdKind {
    Build,
    Check,
    Publish,
    DocsBuild,
    DocsRemove,
    Tree,
    Revert,
    Transfer,
    New,
    Format,
    Run,
    Test,
    Dev,
    CompilePackage,
    ExportOut,
    Add,
    Plain,
}

/// What one token means to a subcommand: not a flag, an unknown flag, a
/// boolean flag, or a flag that consumes the next token as its value. The
/// payload is the flag's canonical (long) name.
pub enum FlagSpec {
    NotFlag,
    Unknown,
    BoolFlag(Seq<char>),
    ValueFlag(Seq<char>),
}

/// The meaning of token `t` under vocabulary `k`.
pub open spec fn classify(k: CmdKind, t: Seq<char>) -> FlagSpec {
    if !flag_shaped(t) {
        FlagSpec::NotFlag
    } else {
        match k {
            CmdKind::Build => if t == "--warnings-as-errors"@ {
                FlagSpec::BoolFlag("--warnings-as-errors"@)
            } else if t == "-t"@ || t == "--target"@ {
                FlagSpec::ValueFlag("--target"@)
            } else if t == "--no-print-progress"@ {
                FlagSpec::BoolFlag("--no-print-progress"@)
            } else {
                FlagSpec::Unknown
            },
            CmdKind::Check => if t == "-t"@ || t == "--target"@ {
                FlagSpec::ValueFlag("--target"@)
            } else {
                FlagSpec::Unknown
            },
            CmdKind::Publish => if t == "--replace"@ {
                FlagSpec::BoolFlag("--replace"@)
            } else if t == "-y"@ || t == "--yes"@ {
                FlagSpec::BoolFlag("--yes"@)
            } else {
                FlagSpec::Unknown
            },
            CmdKind::DocsBuild => if t == "--open"@ {
                FlagSpec::BoolFlag("--open"@)
            } else if t == "-t"@ || t == "--target"@ {
                FlagSpec::ValueFlag("--target"@)
            } else {
                FlagSpec::Unknown
            },
            CmdKind::DocsRemove => if t == "--package"@ {
                FlagSpec::ValueFlag("--package"@)
            } else if t == "--version"@ {
                FlagSpec::ValueFlag("--version"@)
            } else {
                FlagSpec::Unknown
            },
            CmdKind::Tree => if t == "-p"@ || t == "--package"@ {
                FlagSpec::ValueFlag("--package"@)
            } else if t == "-i"@ || t == "--invert"@ {
                FlagSpec::ValueFlag("--invert"@)
            } else {
                FlagSpec::Unknown
            },
            CmdKind::Revert => if t == "--package"@ {
                FlagSpec::ValueFlag("--package"@)
            } else if t == "--version"@ {
                FlagSpec::ValueFlag("--version"@)
            } else {
                FlagSpec::Unknown
            },
            CmdKind::Transfer => if t == "--to"@ {
                FlagSpec::ValueFlag("--to"@)
            } else {
                FlagSpec::Unknown
            },
            CmdKind::New => if t == "--name"@ {
                FlagSpec::ValueFlag("--name"@)
            } else if t == "--template"@ {
                FlagSpec::ValueFlag("--template"@)
            } else if t == "--skip-git"@ {
                FlagSpec::BoolFlag("--skip-git"@)
            } else if t == "--skip-github"@ {
                FlagSpec::BoolFlag("--skip-github"@)
            } else {
                FlagSpec::Unknown
            },
            CmdKind::Format => if t == "--stdin"@ {
                FlagSpec::BoolFlag("--stdin"@)
            } else if t == "--check"@ {
                FlagSpec::BoolFlag("--check"@)
            } else {
                FlagSpec::Unknown
            },
            CmdKind::Run => if t == "-t"@ || t == "--target"@ {
                FlagSpec::ValueFlag("--target"@)
            } else if t == "--runtime"@ {
                FlagSpec::ValueFlag("--runtime"@)
            } else if t == "-m"@ || t == "--module"@ {
                FlagSpec::ValueFlag("--module"@)
            } else if t == "--no-print-progress"@ {
                FlagSpec::BoolFlag("--no-print-progress"@)
            } else {
                FlagSpec::Unknown
            },
            CmdKind::Test => if t == "-t"@ || t == "--target"@ {
                FlagSpec::ValueFlag("--target"@)
            } else if t == "--runtime"@ {
                FlagSpec::ValueFlag("--runtime"@)
            } else {
                FlagSpec::Unknown
            },
            CmdKind::Dev => if t == "-t"@ || t == "--target"@ {
                FlagSpec::ValueFlag("--target"@)
            } else if t == "--runtime"@ {
                FlagSpec::ValueFlag("--runtime"@)
            } else {
                FlagSpec::Unknown
            },
            CmdKind::CompilePackage => if t == "--target"@ {
                FlagSpec::ValueFlag("--target"@)
            } else if t == "--package"@ {
                FlagSpec::ValueFlag("--package"@)
            } else if t == "--out"@ {
                FlagSpec::ValueFlag("--out"@)
            } else if t == "--lib"@ {
                FlagSpec::ValueFlag("--lib"@)
            } else if t == "--javascript-prelude"@ {
                FlagSpec::ValueFlag("--javascript-prelude"@)
            } else if t == "--no-beam"@ {
                FlagSpec::BoolFlag("--no-beam"@)
            } else {
                FlagSpec::Unknown
            },
            CmdKind::ExportOut => if t == "--out"@ {
                FlagSpec::ValueFlag("--out"@)
            } else {
                FlagSpec::Unknown
            },
            CmdKind::Add => if t == "--dev"@ {
                FlagSpec::BoolFlag("--dev"@)
            } else {
                FlagSpec::Unknown
            },
            CmdKind::Plain => FlagSpec::Unknown,
        }
    }
}

/// The executable counterpart of one classification.
pub enum TokenClass {
    NotFlag,
    Unknown,
    BoolFlag(String),
    ValueFlag(String),
}

/// Whether an executable classification agrees with the specified one.
pub open spec fn token_class_matches(r: TokenClass, f: FlagSpec) -> bool {
    match r {
        TokenClass::NotFlag => f is NotFlag,
        TokenClass::Unknown => f is Unknown,
        TokenClass::BoolFlag(s) => f matches FlagSpec::BoolFlag(n) && s@ == n,
        TokenClass::ValueFlag(s) => f matches FlagSpec::ValueFlag(n) && s@ == n,
    }
}

/// Classifies one token under a vocabulary.
pub fn classify_token(k: CmdKind, t: &str) -> (r: TokenClass)
    ensures
        token_class_matches(r, classify(k, t@)),
{
    if !is_flag_token(t) {
        return TokenClass::NotFlag;
    }
    match k {
        CmdKind::Build => if str_eq(t, "--warnings-as-errors") {
            TokenClass::BoolFlag(String::from_str("--warnings-as-errors"))
        } else if str_eq(t, "-t") || str_eq(t, "--target") {
            TokenClass::ValueFlag(String::from_str("--target"))
        } else if str_eq(t, "--no-print-progress") {
            TokenClass::BoolFlag(String::from_str("--no-print-progress"))
        } else {
            TokenClass::Unknown
        },
        CmdKind::Check => if str_eq(t, "-t") || str_eq(t, "--target") {
            TokenClass::ValueFlag(String::from_str("--target"))
        } else {
            TokenClass::Unknown
        },
        CmdKind::Publish => if str_eq(t, "--replace") {
            TokenClass::BoolFlag(String::from_str("--replace"))
        } else if str_eq(t, "-y") || str_eq(t, "--yes") {
            TokenClass::BoolFlag(String::from_str("--yes"))
        } else {
            TokenClass::Unknown
        },
        CmdKind::DocsBuild => if str_eq(t, "--open") {
            TokenClass::BoolFlag(String::from_str("--open"))
        } else if str_eq(t, "-t") || str_eq(t, "--target") {
            TokenClass::ValueFlag(String::from_str("--target"))
        } else {
            TokenClass::Unknown
        },
        CmdKind::DocsRemove => if str_eq(t, "--package") {
            TokenClass::ValueFlag(String::from_str("--package"))
        } else if str_eq(t, "--version") {
            TokenClass::ValueFlag(String::from_str("--version"))
        } else {
            TokenClass::Unknown
        },
        CmdKind::Tree => if str_eq(t, "-p") || str_eq(t, "--package") {
            TokenClass::ValueFlag(String::from_str("--package"))
        } else if str_eq(t, "-i") || str_eq(t, "--invert") {
            TokenClass::ValueFlag(String::from_str("--invert"))
        } else {
            TokenClass::Unknown
        },
        CmdKind::Revert => if str_eq(t, "--package") {
            TokenClass::ValueFlag(String::from_str("--package"))
        } else if str_eq(t, "--version") {
            TokenClass::ValueFlag(String::from_str("--version"))
        } else {
            TokenClass::Unknown
        },
        CmdKind::Transfer => if str_eq(t, "--to") {
            TokenClass::ValueFlag(String::from_str("--to"))
        } else {
            TokenClass::Unknown
        },
        CmdKind::New => if str_eq(t, "--name") {
            TokenClass::ValueFlag(String::from_str("--name"))
        } else if str_eq(t, "--template") {
            TokenClass::ValueFlag(String::from_str("--template"))
        } else if str_eq(t, "--skip-git") {
            TokenClass::BoolFlag(String::from_str("--skip-git"))
        } else if str_eq(t, "--skip-github") {
            TokenClass::BoolFlag(String::from_str("--skip-github"))
        } else {
            TokenClass::Unknown
        },
        CmdKind::Format => if str_eq(t, "--stdin") {
            TokenClass::BoolFlag(String::from_str("--stdin"))
        } else if str_eq(t, "--check") {
            TokenClass::BoolFlag(String::from_str("--check"))
        } else {
            TokenClass::Unknown
        },
        CmdKind::Run => if str_eq(t, "-t") || str_eq(t, "--target") {
            TokenClass::ValueFlag(String::from_str("--target"))
        } else if str_eq(t, "--runtime") {
            TokenClass::ValueFlag(String::from_str("--runtime"))
        } else if str_eq(t, "-m") || str_eq(t, "--module") {
            TokenClass::ValueFlag(String::from_str("--module"))
        } else if str_eq(t, "--no-print-progress") {
            TokenClass::BoolFlag(String::from_str("--no-print-progress"))
        } else {
            TokenClass::Unknown
        },
        CmdKind::Test => if str_eq(t, "-t") || str_eq(t, "--target") {
            TokenClass::ValueFlag(String::from_str("--target"))
        } else if str_eq(t, "--runtime") {
            TokenClass::ValueFlag(String::from_str("--runtime"))
        } else {
            TokenClass::Unknown
        },
        CmdKind::Dev => if str_eq(t, "-t") || str_eq(t, "--target") {
            TokenClass::ValueFlag(String::from_str("--target"))
        } else if str_eq(t, "--runtime") {
            TokenClass::ValueFlag(String::from_str("--runtime"))
        } else {
            TokenClass::Unknown
        },
        CmdKind::CompilePackage => if str_eq(t, "--target") {
            TokenClass::ValueFlag(String::from_str("--target"))
        } else if str_eq(t, "--package") {
            TokenClass::ValueFlag(String::from_str("--package"))
        } else if str_eq(t, "--out") {
            TokenClass::ValueFlag(String::from_str("--out"))
        } else if str_eq(t, "--lib") {
            TokenClass::ValueFlag(String::from_str("--lib"))
        } else if str_eq(t, "--javascript-prelude") {
            TokenClass::ValueFlag(String::from_str("--javascript-prelude"))
        } else if str_eq(t, "--no-beam") {
            TokenClass::BoolFlag(String::from_str("--no-beam"))
        } else {
            TokenClass::Unknown
        },
        CmdKind::ExportOut => if str_eq(t, "--out") {
            TokenClass::ValueFlag(String::from_str("--out"))
        } else {
            TokenClass::Unknown
        },
        CmdKind::Add => if str_eq(t, "--dev") {
            TokenClass::BoolFlag(String::from_str("--dev"))
        } else {
            TokenClass::Unknown
        },
        CmdKind::Plain => TokenClass::Unknown,
    }
}

/// What a scan has gathered: boolean flags seen, valued flags with their
/// values, and positional arguments, each in order of appearance.
#[verifier::ext_equal]
pub struct ScanState {
    pub bools: Seq<Seq<char>>,
    pub values: Seq<(Seq<char>, Seq<char>)>,
    pub positionals: Seq<Seq<char>>,
}

impl ScanState {
    pub open spec fn push_positional(self, t: Seq<char>) -> ScanState {
        ScanState { positionals: self.positionals.push(t), ..self }
    }

    pub open spec fn push_bool(self, n: Seq<char>) -> ScanState {
        ScanState { bools: self.bools.push(n), ..self }
    }

    pub open spec fn push_value(self, n: Seq<char>, v: Seq<char>) -> ScanState {
        ScanState { values: self.values.push((n, v)), ..self }
    }
}

/// A scan that has gathered nothing yet.
pub open spec fn empty_state() -> ScanState {
    ScanState { bools: Seq::empty(), values: Seq::empty(), positionals: Seq::empty() }
}

/// Whether a name was already seen as a boolean flag.
pub open spec fn contains_name(s: Seq<Seq<char>>, n: Seq<char>) -> bool {
    exists|j: int| 0 <= j < s.len() && s[j] == n
}

/// Whether a name was already seen as a valued flag.
pub open spec fn has_key(s: Seq<(Seq<char>, Seq<char>)>, n: Seq<char>) -> bool {
    exists|j: int| 0 <= j < s.len() && s[j].0 == n
}

/// The value recorded for a name, the most recent first. The scanner
/// rejects duplicates, so at most one is ever recorded.
pub open spec fn lookup(s: Seq<(Seq<char>, Seq<char>)>, n: Seq<char>) -> Option<Seq<char>>
    decreases s.len(),
{
    if s.len() == 0 {
        None
    } else if s.last().0 == n {
        Some(s.last().1)
    } else {
        lookup(s.drop_last(), n)
    }
}

/// A scan that failed, with the index of the offending token.
pub enum ScanError {
    UnknownAt(int),
    MissingValueAt(int),
    DuplicateAt(int),
}

/// The specification of scanning: walk the tokens from `i`, recording each
/// according to its classification. With `trailing`, every token after the
/// first positional is captured verbatim as a positional.
pub open spec fn scan(
    k: CmdKind,
    args: Seq<Seq<char>>,
    i: int,
    st: ScanState,
    trailing: bool,
) -> Result<ScanState, ScanError>
    decreases args.len() - i,
{
    if i >= args.len() {
        Ok(st)
    } else {
        let t = args[i];
        if trailing && st.positionals.len() > 0 {
            scan(k, args, i + 1, st.push_positional(t), trailing)
        } else {
            match classify(k, t) {
                FlagSpec::NotFlag => scan(k, args, i + 1, st.push_positional(t), trailing),
                FlagSpec::Unknown => Err(ScanError::UnknownAt(i)),
                FlagSpec::BoolFlag(n) => if contains_name(st.bools, n) {
                    Err(ScanError::DuplicateAt(i))
                } else {
                    scan(k, args, i + 1, st.push_bool(n), trailing)
                },
                FlagSpec::ValueFlag(n) => if has_key(st.values, n) {
                    Err(ScanError::DuplicateAt(i))
                } else if i + 1 >= args.len() {
                    Err(ScanError::MissingValueAt(i))
                } else {
                    scan(k, args, i + 2, st.push_value(n, args[i + 1]), trailing)
                },
            }
        }
    }
}

/// What the scanner gathered, executably.
#[verifier::ext_equal]
pub struct ScanResult {
    pub bools: Vec<String>,
    pub values: Vec<(String, String)>,
    pub positionals: Vec<String>,
}

/// The view of a pair sequence.
pub open spec fn pairs_view(s: Seq<(String, String)>) -> Seq<(Seq<char>, Seq<char>)> {
    Seq::new(s.len(), |j: int| (s[j].0@, s[j].1@))
}

/// The abstract state a scan result stands for.
pub open spec fn state_of(r: ScanResult) -> ScanState {
    ScanState {
        bools: r.bools.deep_view(),
        values: pairs_view(r.values@),
        positionals: r.positionals.deep_view(),
    }
}

/// How a failed scan is reported: the unknown flag verbatim, the other
/// failures under the flag's canonical name.
pub open spec fn scan_err_post<T>(
    k: CmdKind,
    a: Seq<Seq<char>>,
    e: ScanError,
    r: Result<T, UsageError>,
) -> bool {
    match e {
        ScanError::UnknownAt(j) => 0 <= j < a.len() && (r matches Err(
            UsageError::UnknownFlag { flag },
        ) && flag@ == a[j]),
        ScanError::MissingValueAt(j) => 0 <= j < a.len() && (classify(k, a[j]) matches
            FlagSpec::ValueFlag(n) && (r matches Err(UsageError::MissingValue { flag }) && flag@
            == n)),
        ScanError::DuplicateAt(j) => 0 <= j < a.len() && (r matches Err(
            UsageError::DuplicateFlag { flag },
        ) && ((classify(k, a[j]) matches FlagSpec::BoolFlag(n) ==> flag@ == n) && (classify(
            k,
            a[j],
        ) matches FlagSpec::ValueFlag(n2) ==> flag@ == n2))),
    }
}

/// The scanner's contract: its result is exactly what `scan` specifies.
pub open spec fn scan_args_post(
    k: CmdKind,
    a: Seq<Seq<char>>,
    i: int,
    trailing: bool,
    r: Result<ScanResult, UsageError>,
) -> bool {
    match scan(k, a, i, empty_state(), trailing) {
        Ok(st) => r matches Ok(res) && state_of(res) == st,
        Err(e) => scan_err_post(k, a, e, r),
    }
}

/// Decides whether a boolean flag was recorded.
pub fn has_name(v: &Vec<String>, n: &str) -> (r: bool)
    ensures
        r == contains_name(v.deep_view(), n@),
{
    let mut i: usize = 0;
    while i < v.len()
        invariant
            i <= v@.len(),
            v.deep_view().len() == v@.len(),
            forall|j: int| 0 <= j < i ==> v.deep_view()[j] != n@,
        decreases v@.len() - i,
    {
        if str_eq(v[i].as_str(), n) {
            assert(v.deep_view()[i as int] == n@);
            return true;
        }
        i += 1;
    }
    false
}

/// Decides whether a valued flag was recorded.
pub fn has_key_exec(v: &Vec<(String, String)>, n: &str) -> (r: bool)
    ensures
        r == has_key(pairs_view(v@), n@),
{
    let mut i: usize = 0;
    while i < v.len()
        invariant
            i <= v@.len(),
            forall|j: int| 0 <= j < i ==> pairs_view(v@)[j].0 != n@,
        decreases v@.len() - i,
    {
        if str_eq(v[i].0.as_str(), n) {
            assert(pairs_view(v@)[i as int].0 == n@);
            return true;
        }
        i += 1;
    }
    false
}

/// The value recorded for a flag, if any.
pub fn get_value(v: &Vec<(String, String)>, n: &str) -> (r: Option<String>)
    ensures
        lookup(pairs_view(v@), n@) matches Some(val) ==> (r matches Some(s) && s@ == val),
        lookup(pairs_view(v@), n@) is None ==> r is None,
{
    let mut i: usize = v.len();
    proof {
        assert(pairs_view(v@).take(v@.len() as int) =~= pairs_view(v@));
    }
    while i > 0
        invariant
            i <= v@.len(),
            lookup(pairs_view(v@), n@) == lookup(pairs_view(v@).take(i as int), n@),
        decreases i,
    {
        i -= 1;
        if str_eq(v[i].0.as_str(), n) {
            proof {
                let p = pairs_view(v@).take(i + 1);
                assert(p.last() == (v@[i as int].0@, v@[i as int].1@));
            }
            return Some(v[i].1.clone());
        }
        proof {
            let p = pairs_view(v@).take(i + 1);
            assert(p.last() == (v@[i as int].0@, v@[i as int].1@));
            assert(p.drop_last() =~= pairs_view(v@).take(i as int));
        }
    }
    proof {
        assert(pairs_view(v@).take(0) =~= Seq::<(Seq<char>, Seq<char>)>::empty());
    }
    None
}

/// Scans the tokens of one subcommand, starting at `start`.
pub fn scan_args(k: CmdKind, args: &Vec<String>, start: usize, trailing: bool) -> (r: Result<
    ScanResult,
    UsageError,
>)
    requires
        start <= args@.len(),
    ensures
        scan_args_post(k, args.deep_view(), start as int, trailing, r),
{
    let ghost a = args.deep_view();
    let mut res = ScanResult { bools: Vec::new(), values: Vec::new(), positionals: Vec::new() };
    let mut i: usize = start;
    proof {
        assert(state_of(res) =~= empty_state());
        assert(a.len() == args@.len());
    }
    while i < args.len()
        invariant
            a == args.deep_view(),
            a.len() == args@.len(),
            start <= i <= a.len(),
            res.positionals.deep_view().len() == res.positionals@.len(),
            scan(k, a, start as int, empty_state(), trailing) == scan(
                k,
                a,
                i as int,
                state_of(res),
                trailing,
            ),
        decreases a.len() - i,
    {
        let ghost st = state_of(res);
        let t = &args[i];
        proof {
            assert(a[i as int] == t@);
        }
        if trailing && res.positionals.len() > 0 {
            res.positionals.push(t.clone());
            proof {
                assert(state_of(res).positionals =~= st.positionals.push(t@));
                assert(state_of(res) == st.push_positional(a[i as int]));
            }
            i += 1;
        } else {
            match classify_token(k, t.as_str()) {
                TokenClass::NotFlag => {
                    res.positionals.push(t.clone());
                    proof {
                        assert(state_of(res).positionals =~= st.positionals.push(t@));
                        assert(state_of(res) == st.push_positional(a[i as int]));
                    }
                    i += 1;
                },
                TokenClass::Unknown => {
                    return Err(UsageError::UnknownFlag { flag: t.clone() });
                },
                TokenClass::BoolFlag(name) => {
                    let ghost n = classify(k, a[i as int])->BoolFlag_0;
                    if has_name(&res.bools, name.as_str()) {
                        return Err(UsageError::DuplicateFlag { flag: name });
                    }
                    res.bools.push(name);
                    proof {
                        assert(state_of(res).bools =~= st.bools.push(n));
                        assert(state_of(res) == st.push_bool(n));
                    }
                    i += 1;
                },
                TokenClass::ValueFlag(name) => {
                    let ghost n = classify(k, a[i as int])->ValueFlag_0;
                    if has_key_exec(&res.values, name.as_str()) {
                        return Err(UsageError::DuplicateFlag { flag: name });
                    }
                    if i + 1 >= args.len() {
                        return Err(UsageError::MissingValue { flag: name });
                    }
                    let v = args[i + 1].clone();
                    proof {
                        assert(a[i as int + 1] == args@[i as int + 1]@);
                    }
                    res.values.push((name, v));
                    proof {
                        assert(state_of(res).values =~= st.values.push((n, a[i as int + 1])));
                        assert(state_of(res) == st.push_value(n, a[i as int + 1]));
                    }
                    i += 2;
                },
            }
        }
    }
    Ok(res)
}

} // verus!
