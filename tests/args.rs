use trybuild::args::{cargo_target_dir, feature_args, filter, filters, rustflags};
use trybuild::cases::{Expected, Test};
use trybuild::expand::ExpandedTestSet;

fn strings(xs: &[&str]) -> Vec<String> {
    xs.iter().map(|s| s.to_string()).collect()
}

#[test]
fn filters_come_from_prefixed_arguments() {
    let args = strings(&["ui", "trybuild=tuple_structs.rs", "trybuild=", "x", "trybuild=b"]);
    let fs: Vec<String> = filters(&args).into_iter().map(|f| f.into_iter().collect()).collect();
    assert_eq!(fs, strings(&["tuple_structs.rs", "b"]));
}

#[test]
fn filter_keeps_matching_tests() {
    let mut set = ExpandedTestSet::new();
    for p in ["tests/ui/a.rs", "tests/ui/tuple_structs.rs", "tests/ui/b.rs"] {
        set.insert(Test { path: p.to_string(), expected: Expected::CompileFail }, None);
    }
    let tests = set.into_vec();
    let kept = filter(tests.clone(), &strings(&["ui", "trybuild=tuple"]));
    assert_eq!(kept.len(), 1);
    assert_eq!(kept[0].test.path, "tests/ui/tuple_structs.rs");
    assert_eq!(kept[0].name, "trybuild001");
    let all = filter(tests.clone(), &strings(&["ui"]));
    assert_eq!(all.len(), 3);
    let none = filter(tests, &strings(&["trybuild=zzz"]));
    assert!(none.is_empty());
}

#[test]
fn cargo_feature_arguments() {
    assert!(feature_args(&None).is_empty());
    assert_eq!(
        feature_args(&Some(strings(&["a", "b"]))),
        strings(&["--no-default-features", "--features", "a,b"])
    );
    assert_eq!(
        feature_args(&Some(Vec::new())),
        strings(&["--no-default-features", "--features", ""])
    );
}

#[test]
fn rustc_flags() {
    let base = strings(&["--cfg", "trybuild", "--verbose", "-A", "dead_code"]);
    assert_eq!(rustflags(None), base);
    assert_eq!(rustflags(Some("-C opt-level=2")), base);
    let mut cov = base.clone();
    cov.extend(strings(&["-C", "instrument-coverage"]));
    assert_eq!(rustflags(Some("-C instrument-coverage --cfg x")), cov);
}

#[test]
fn target_dir_for_tests() {
    assert_eq!(cargo_target_dir("/t/target/"), "/t/target/tests/trybuild");
    assert_eq!(cargo_target_dir("/t/target"), "/t/target/tests/trybuild");
}
