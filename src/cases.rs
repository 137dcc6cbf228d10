//! The registry of test cases, and the decisions taken on the outcome of each.
use crate::normalize::Variations;
use crate::text::{chars_of, replace, replace_exec, string_of};
use vstd::prelude::*;

verus! {

/// What a test case is expected to do.
#[derive(Clone, Copy, Debug, PartialEq, Eq, Structural)]
pub enum Expected {
    Pass,
    CompileFail,
}

/// One registered test case: a path, or a glob pattern, and its expectation.
#[derive(Clone, Debug)]
pub struct Test {
    pub path: String,
    pub expected: Expected,
}

/// The test cases registered so far, in order.
pub struct TestCases {
    tests: Vec<Test>,
}

impl View for TestCases {
    type V = Seq<(Seq<char>, Expected)>;

    closed spec fn view(&self) -> Seq<(Seq<char>, Expected)> {
        self.tests@.map_values(|t: Test| (t.path@, t.expected))
    }
}

impl TestCases {
    pub fn new() -> (r: TestCases)
        ensures
            r@ == Seq::<(Seq<char>, Expected)>::empty(),
    {
        let r = TestCases { tests: Vec::new() };
        assert(r@ =~= Seq::<(Seq<char>, Expected)>::empty());
        r
    }

    fn push(&mut self, path: &str, expected: Expected)
        ensures
            final(self)@ == old(self)@.push((path@, expected)),
    {
        let ghost before = self@;
        self.tests.push(Test { path: String::from_str(path), expected });
        assert(self@ =~= before.push((path@, expected)));
    }

    /// Registers a test that must compile and run successfully.
    pub fn pass(&mut self, path: &str)
        ensures
            final(self)@ == old(self)@.push((path@, Expected::Pass)),
    {
        self.push(path, Expected::Pass);
    }

    /// Registers a test that must fail to compile with the saved diagnostics.
    pub fn compile_fail(&mut self, path: &str)
        ensures
            final(self)@ == old(self)@.push((path@, Expected::CompileFail)),
    {
        self.push(path, Expected::CompileFail);
    }

    /// The number of registered tests.
    pub fn len(&self) -> (r: usize)
        ensures
            r == self@.len(),
    {
        self.tests.len()
    }

    /// The test at position `i`.
    pub fn get(&self, i: usize) -> (r: &Test)
        requires
            i < self@.len(),
        ensures
            (r.path@, r.expected) == self@[i as int],
    {
        &self.tests[i]
    }
}

/// What to do with the output when no saved snapshot matches.
#[derive(Clone, Copy, Debug, PartialEq, Eq, Structural)]
pub enum Update {
    /// Save new snapshots in a work-in-progress directory.
    Wip,
    /// Overwrite the saved snapshots.
    Overwrite,
}

pub open spec fn update_of(value: Option<Seq<char>>) -> Option<Update> {
    match value {
        None => Some(Update::Wip),
        Some(v) => if v == "wip"@ {
            Some(Update::Wip)
        } else if v == "overwrite"@ {
            Some(Update::Overwrite)
        } else {
            None
        },
    }
}

impl Update {
    /// The mode that the value of the update setting asks for: `wip` (the
    /// default when unset) or `overwrite`; `None` for any other value.
    pub fn parse(value: Option<&str>) -> (r: Option<Update>)
        ensures
            r == update_of(
                match value {
                    Some(v) => Some(v@),
                    None => None,
                },
            ),
    {
        match value {
            None => Some(Update::Wip),
            Some(v) => {
                let s = String::from_str(v);
                if s == String::from_str("wip") {
                    Some(Update::Wip)
                } else if s == String::from_str("overwrite") {
                    Some(Update::Overwrite)
                } else {
                    None
                }
            },
        }
    }
}

/// The verdict on a compile-fail test.
#[derive(Clone, Copy, Debug, PartialEq, Eq, Structural)]
pub enum Verdict {
    /// The saved snapshot matches one of the variants.
    Matched,
    /// There is no saved snapshot; the preferred variant goes to the
    /// work-in-progress directory, and the test passes.
    WriteWip,
    /// The preferred variant is written over the snapshot, and the test passes.
    Overwrite,
    /// The saved snapshot matches no variant.
    Mismatch,
    /// The test compiled.
    ShouldNotHaveCompiled,
}

pub open spec fn compile_fail_verdict(
    success: bool,
    saved: Option<Seq<char>>,
    variants: Seq<Seq<char>>,
    update: Update,
) -> Verdict {
    if success {
        Verdict::ShouldNotHaveCompiled
    } else {
        match saved {
            None => match update {
                Update::Wip => Verdict::WriteWip,
                Update::Overwrite => Verdict::Overwrite,
            },
            Some(s) => if exists|i: int|
                0 <= i < variants.len() && variants[i] == replace(s, "\r\n"@, "\n"@) {
                Verdict::Matched
            } else {
                match update {
                    Update::Wip => Verdict::Mismatch,
                    Update::Overwrite => Verdict::Overwrite,
                }
            },
        }
    }
}

/// Decides a compile-fail test from whether the build succeeded, the saved
/// snapshot if there is one, the variants of the build's diagnostics and the
/// update mode.
pub fn check_compile_fail(
    success: bool,
    saved: Option<&str>,
    variations: &Variations,
    update: Update,
) -> (r: Verdict)
    ensures
        r == compile_fail_verdict(
            success,
            match saved {
                Some(s) => Some(s@),
                None => None,
            },
            variations@,
            update,
        ),
{
    if success {
        return Verdict::ShouldNotHaveCompiled;
    }
    match saved {
        None => match update {
            Update::Wip => Verdict::WriteWip,
            Update::Overwrite => Verdict::Overwrite,
        },
        Some(s) => {
            let expected = string_of(&replace_exec(&chars_of(s), &chars_of("\r\n"), &chars_of("\n")));
            if variations.any(expected.as_str()) {
                Verdict::Matched
            } else {
                match update {
                    Update::Wip => Verdict::Mismatch,
                    Update::Overwrite => Verdict::Overwrite,
                }
            }
        },
    }
}


/// The verdict on a pass test.
#[derive(Clone, Copy, Debug, PartialEq, Eq, Structural)]
pub enum PassVerdict {
    Passed,
    /// The test did not compile.
    CargoFail,
    /// The test compiled but its binary failed.
    RunFailed,
}

/// Decides a pass test from whether it compiled and, when it was run, whether
/// its binary succeeded; a test that did not compile is not run.
pub fn check_pass(build_success: bool, run_success: Option<bool>) -> (r: PassVerdict)
    ensures
        !build_success ==> r == PassVerdict::CargoFail,
        build_success ==> r == match run_success {
            Some(true) => PassVerdict::Passed,
            _ => PassVerdict::RunFailed,
        },
{
    if !build_success {
        return PassVerdict::CargoFail;
    }
    match run_success {
        Some(true) => PassVerdict::Passed,
        _ => PassVerdict::RunFailed,
    }
}

} // verus!
