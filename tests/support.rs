use trybuild::cases::{Expected, Test, Update};
use trybuild::context::PathDependency;
use trybuild::diff::{Chunk, Diff, Render};
use trybuild::expand::{bin_name_exec, ExpandedTestSet};

fn old_and_new(diff: &Diff) -> (String, String) {
    let mut old = String::new();
    let mut new = String::new();
    for chunk in &diff.diff {
        match chunk {
            Chunk::Equal(s) => {
                old.push_str(s);
                new.push_str(s);
            }
            Chunk::Delete(s) => old.push_str(s),
            Chunk::Insert(s) => new.push_str(s),
        }
    }
    (old, new)
}

#[test]
fn diff_rebuilds_both_texts() {
    let diff = Diff::compute("hello world\n", "hello world!\n");
    assert_eq!(old_and_new(&diff), (String::from("hello world\n"), String::from("hello world!\n")));
    assert!(diff.worth_printing);
    let diff = Diff::compute("abc", "xyz");
    assert_eq!(old_and_new(&diff), (String::from("abc"), String::from("xyz")));
    assert!(!diff.worth_printing);
}

#[test]
fn diff_worth_printing_threshold() {
    // two common characters out of three: below four fifths
    let diff = Diff::compute("abc", "abd");
    assert!(!diff.worth_printing);
    let diff = Diff::compute("", "");
    assert!(diff.worth_printing);
}

#[test]
fn diff_renders_for_each_side() {
    let diff = Diff::compute("a b c", "a x c");
    let expected: String = diff
        .iter("a b c")
        .into_iter()
        .map(|r| match r {
            Render::Common(s) | Render::Unique(s) => s,
        })
        .collect();
    assert_eq!(expected, "a b c");
    let actual: String = diff
        .iter("a x c")
        .into_iter()
        .map(|r| match r {
            Render::Common(s) | Render::Unique(s) => s,
        })
        .collect();
    assert_eq!(actual, "a x c");
    let neither = diff.iter("zzz");
    assert!(neither.iter().all(|r| matches!(r, Render::Common(_))));
}

#[test]
fn bin_names_are_padded() {
    assert_eq!(bin_name_exec(0), "trybuild000");
    assert_eq!(bin_name_exec(7), "trybuild007");
    assert_eq!(bin_name_exec(42), "trybuild042");
    assert_eq!(bin_name_exec(123), "trybuild123");
    assert_eq!(bin_name_exec(1000), "trybuild1000");
}

#[test]
fn expanded_set_dedups_by_path() {
    let mut set = ExpandedTestSet::new();
    set.insert(Test { path: String::from("a.rs"), expected: Expected::Pass }, None);
    set.insert(Test { path: String::from("b.rs"), expected: Expected::Pass }, Some(String::from("bad glob")));
    set.insert(Test { path: String::from("a.rs"), expected: Expected::CompileFail }, None);
    let v = set.into_vec();
    assert_eq!(v.len(), 2);
    assert_eq!(v[0].name, "trybuild000");
    assert_eq!(v[0].test.path, "a.rs");
    assert_eq!(v[0].test.expected, Expected::CompileFail);
    assert!(v[0].error.is_none());
    assert_eq!(v[1].name, "trybuild001");
    assert_eq!(v[1].error.as_deref(), Some("bad glob"));
}

#[test]
fn project_context_and_flags() {
    let mut set = ExpandedTestSet::new();
    set.insert(Test { path: String::from("a.rs"), expected: Expected::Pass }, None);
    set.insert(Test { path: String::from("b.rs"), expected: Expected::CompileFail }, None);
    let tests = set.into_vec();
    let project = trybuild::project::Project::new(
        String::from("/t/tests/foo/"),
        String::from("/src/foo/"),
        String::from("/t/"),
        "foo",
        Update::Wip,
        &tests,
        None,
        String::from("/src/"),
        vec![PathDependency { name: String::from("dep"), normalized_path: String::from("/d/") }],
    );
    assert_eq!(project.name, "foo-tests");
    assert!(project.has_pass);
    assert!(project.has_compile_fail);
    assert!(project.show_expected());
    let ctx = project.context("trybuild000", "a.rs");
    assert_eq!(ctx.krate, "trybuild000");
    assert_eq!(ctx.source_dir, "/src/foo/");
    assert_eq!(ctx.input_file, "a.rs");
    assert_eq!(ctx.path_dependencies[0].name, "dep");
    let only_pass = &tests[..1].to_vec();
    let (p, c) = trybuild::project::test_kinds(only_pass);
    assert!(p && !c);
}
