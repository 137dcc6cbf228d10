//! The read-only context of one normalization run.
use crate::text::folded;
use vstd::prelude::*;

verus! {

/// A path dependency of the crate under test, by name and canonical path.
#[derive(Clone, Debug)]
pub struct PathDependency {
    pub name: String,
    pub normalized_path: String,
}

/// What a normalization needs to know of the project around the diagnostics.
#[derive(Clone, Debug)]
pub struct Context {
    /// The name of the test crate.
    pub krate: String,
    /// The directory of the crate under test.
    pub source_dir: String,
    /// The root of the workspace.
    pub workspace: String,
    /// The test file, relative to the source directory.
    pub input_file: String,
    /// The build output directory.
    pub target_dir: String,
    pub path_dependencies: Vec<PathDependency>,
}

impl Context {
    /// The crate name and the paths are never empty (a directory ends with a
    /// separator).
    pub open spec fn wf(&self) -> bool {
        &&& self.krate@.len() > 0
        &&& self.source_dir@.len() > 0
        &&& self.workspace@.len() > 0
        &&& self.target_dir@.len() > 0
        &&& forall|k: int|
            0 <= k < self.path_dependencies@.len()
                ==> #[trigger] self.path_dependencies@[k].normalized_path@.len() > 0
    }

    pub open spec fn source_pat(&self) -> Seq<char> {
        folded(self.source_dir@)
    }

    pub open spec fn workspace_pat(&self) -> Seq<char> {
        folded(self.workspace@)
    }

    pub open spec fn target_pat(&self) -> Seq<char> {
        folded(self.target_dir@)
    }

    pub open spec fn input_pat(&self) -> Seq<char> {
        folded(self.input_file@)
    }
}

/// A directory path as the context holds it: with a trailing separator.
pub open spec fn directory_of(path: Seq<char>) -> Seq<char> {
    if path.len() > 0 && (path.last() == '/' || path.last() == '\\') {
        path
    } else {
        path.push('/')
    }
}

pub fn directory(path: &str) -> (r: String)
    ensures
        r@ == directory_of(path@),
        r@.len() > 0,
{
    let mut r = String::from_str(path);
    let v = crate::text::chars_of(path);
    let n = v.len();
    if n > 0 && (v[n - 1] == '/' || v[n - 1] == '\\') {
        r
    } else {
        r.append("/");
        proof {
            reveal_strlit("/");
            assert(r@ =~= path@.push('/'));
        }
        r
    }
}

} // verus!
