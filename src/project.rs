//! The project in which the test cases are built.
use crate::cases::{Expected, Update};
use crate::context::{Context, PathDependency};
use crate::expand::ExpandedTest;
use vstd::prelude::*;

verus! {

#[derive(Debug)]
pub struct Project {
    pub dir: String,
    pub source_dir: String,
    pub target_dir: String,
    pub name: String,
    pub update: Update,
    pub has_pass: bool,
    pub has_compile_fail: bool,
    pub features: Option<Vec<String>>,
    pub workspace: String,
    pub path_dependencies: Vec<PathDependency>,
}

/// Whether some test is expected to pass, and whether some is expected to
/// fail to compile.
pub open spec fn kinds_of(tests: Seq<ExpandedTest>) -> (bool, bool) {
    (
        exists|i: int| 0 <= i < tests.len() && tests[i].test.expected == Expected::Pass,
        exists|i: int| 0 <= i < tests.len() && tests[i].test.expected == Expected::CompileFail,
    )
}

pub fn test_kinds(tests: &Vec<ExpandedTest>) -> (r: (bool, bool))
    ensures
        r == kinds_of(tests@),
{
    let mut has_pass = false;
    let mut has_compile_fail = false;
    let mut i: usize = 0;
    while i < tests.len()
        invariant
            i <= tests@.len(),
            has_pass == exists|k: int|
                0 <= k < i && tests@[k].test.expected == Expected::Pass,
            has_compile_fail == exists|k: int|
                0 <= k < i && tests@[k].test.expected == Expected::CompileFail,
        decreases tests@.len() - i,
    {
        match tests[i].test.expected {
            Expected::Pass => has_pass = true,
            Expected::CompileFail => has_compile_fail = true,
        }
        i += 1;
    }
    (has_pass, has_compile_fail)
}

impl Project {
    /// The project for `tests`, named after the crate under test with a
    /// `-tests` suffix.
    pub fn new(
        dir: String,
        source_dir: String,
        target_dir: String,
        crate_name: &str,
        update: Update,
        tests: &Vec<ExpandedTest>,
        features: Option<Vec<String>>,
        workspace: String,
        path_dependencies: Vec<PathDependency>,
    ) -> (r: Project)
        ensures
            r.dir == dir,
            r.source_dir == source_dir,
            r.target_dir == target_dir,
            r.name@ == crate_name@ + "-tests"@,
            r.update == update,
            (r.has_pass, r.has_compile_fail) == kinds_of(tests@),
            r.features == features,
            r.workspace == workspace,
            r.path_dependencies == path_dependencies,
    {
        let (has_pass, has_compile_fail) = test_kinds(tests);
        let mut name = String::from_str(crate_name);
        name.append("-tests");
        Project {
            dir,
            source_dir,
            target_dir,
            name,
            update,
            has_pass,
            has_compile_fail,
            features,
            workspace,
            path_dependencies,
        }
    }

    /// Whether each test shows what it was expected to do: only when both
    /// kinds of test are present.
    pub fn show_expected(&self) -> (r: bool)
        ensures
            r == (self.has_pass && self.has_compile_fail),
    {
        self.has_pass && self.has_compile_fail
    }

    /// The normalization context for the diagnostics of the test binary
    /// `krate` built from `input_file`.
    pub fn context(&self, krate: &str, input_file: &str) -> (r: Context)
        ensures
            r.krate@ == krate@,
            r.source_dir@ == self.source_dir@,
            r.workspace@ == self.workspace@,
            r.input_file@ == input_file@,
            r.target_dir@ == self.target_dir@,
            r.path_dependencies@.len() == self.path_dependencies@.len(),
            forall|i: int|
                0 <= i < self.path_dependencies@.len() ==> {
                    &&& (#[trigger] r.path_dependencies@[i]).name@
                        == self.path_dependencies@[i].name@
                    &&& r.path_dependencies@[i].normalized_path@
                        == self.path_dependencies@[i].normalized_path@
                },
    {
        let mut deps: Vec<PathDependency> = Vec::new();
        let mut i: usize = 0;
        while i < self.path_dependencies.len()
            invariant
                i <= self.path_dependencies@.len(),
                deps@.len() == i,
                forall|k: int|
                    0 <= k < i ==> {
                        &&& (#[trigger] deps@[k]).name@ == self.path_dependencies@[k].name@
                        &&& deps@[k].normalized_path@
                            == self.path_dependencies@[k].normalized_path@
                    },
            decreases self.path_dependencies@.len() - i,
        {
            let d = &self.path_dependencies[i];
            deps.push(
                PathDependency { name: d.name.clone(), normalized_path: d.normalized_path.clone() },
            );
            i += 1;
        }
        Context {
            krate: String::from_str(krate),
            source_dir: self.source_dir.clone(),
            workspace: self.workspace.clone(),
            input_file: String::from_str(input_file),
            target_dir: self.target_dir.clone(),
            path_dependencies: deps,
        }
    }
}

} // verus!
