//! The project context: the root directory of the project being operated
//! on and the paths derived from it, plus the rule that picks the root from
//! the ancestors of the working directory.

use vstd::prelude::*;
use vstd::string::*;
use crate::error::Error;
use crate::strutil::concat_str;

verus! {

/// The root of the project an invocation operates on, with its derived
/// locations. Created once per invocation and immutable afterwards.
#[derive(Debug, Clone, PartialEq, Eq)]
pub struct ProjectPaths {
    pub root: String,
}

impl ProjectPaths {
    /// Wraps a root directory.
    pub fn new(root: String) -> (s: Self)
        ensures
            s.root == root,
    {
        ProjectPaths { root }
    }

    /// The directory build artifacts are written to.
    pub fn build_directory(&self) -> (r: String)
        ensures
            r@ == self.root@ + "/build"@,
    {
        concat_str(self.root.as_str(), "/build")
    }

    /// The human-edited dependency declaration file.
    pub fn root_config(&self) -> (r: String)
        ensures
            r@ == self.root@ + "/gleam.toml"@,
    {
        concat_str(self.root.as_str(), "/gleam.toml")
    }

    /// The machine-written lock file of resolved versions.
    pub fn manifest_path(&self) -> (r: String)
        ensures
            r@ == self.root@ + "/manifest.toml"@,
    {
        concat_str(self.root.as_str(), "/manifest.toml")
    }
}

/// One ancestor of the working directory, nearest first, together with
/// whether a project manifest marker was seen in it.
#[derive(Debug, Clone, PartialEq, Eq)]
pub struct AncestorProbe {
    pub path: String,
    pub has_manifest: bool,
}

/// Picks the nearest ancestor that holds a project manifest. `probes` lists
/// the working directory and its ancestors nearest first, up to and
/// including the filesystem root; `start` is the working directory named in
/// the failure when no ancestor qualifies.
pub fn locate_project_root(probes: &Vec<AncestorProbe>, start: &String) -> (r: Result<
    ProjectPaths,
    Error,
>)
    ensures
        r is Ok <==> (exists|i: int|
            0 <= i < probes@.len() && probes@[i].has_manifest),
        r matches Ok(p) ==> (exists|i: int|
            0 <= i < probes@.len() && probes@[i].has_manifest && p.root == probes@[i].path
                && (forall|j: int| 0 <= j < i ==> !probes@[j].has_manifest)),
        r matches Err(e) ==> (e matches Error::UnableToFindProjectRoot { path } && path@
            == start@),
{
    let n = probes.len();
    let mut i: usize = 0;
    while i < n
        invariant
            n == probes@.len(),
            i <= n,
            forall|j: int| 0 <= j < i ==> !probes@[j].has_manifest,
        decreases n - i,
    {
        if probes[i].has_manifest {
            return Ok(ProjectPaths { root: probes[i].path.clone() });
        }
        i += 1;
    }
    Err(Error::UnableToFindProjectRoot { path: start.clone() })
}

} // verus!
