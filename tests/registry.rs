use trybuild::cases::{check_compile_fail, check_pass, Expected, PassVerdict, TestCases, Update, Verdict};
use trybuild::context::{directory, Context};
use trybuild::normalize::diagnostics;
use trybuild::path::join_path;
use trybuild::prng::Rng;

#[test]
fn test_path_macro() {
    let dir = String::from("../target/tests");
    let cargo_dir = join_path(&vec![dir, String::from(".cargo"), String::from("config.toml")]);
    assert_eq!(cargo_dir, "../target/tests/.cargo/config.toml");
}

#[test]
fn join_path_absolute_component_replaces() {
    let p = join_path(&vec![String::from("a/"), String::from("b"), String::from("/c")]);
    assert_eq!(p, "/c");
    let p = join_path(&vec![String::from("a/"), String::from("b")]);
    assert_eq!(p, "a/b");
    assert_eq!(join_path(&Vec::new()), "");
}

#[test]
fn registers_tests_in_order() {
    let mut t = TestCases::new();
    assert_eq!(t.len(), 0);
    t.pass("tests/ui/run-pass-0.rs");
    t.compile_fail("tests/ui/compile-fail-0.rs");
    assert_eq!(t.len(), 2);
    assert_eq!(t.get(0).path, "tests/ui/run-pass-0.rs");
    assert_eq!(t.get(0).expected, Expected::Pass);
    assert_eq!(t.get(1).path, "tests/ui/compile-fail-0.rs");
    assert_eq!(t.get(1).expected, Expected::CompileFail);
}

#[test]
fn update_mode_from_setting() {
    assert_eq!(Update::parse(None), Some(Update::Wip));
    assert_eq!(Update::parse(Some("wip")), Some(Update::Wip));
    assert_eq!(Update::parse(Some("overwrite")), Some(Update::Overwrite));
    assert_eq!(Update::parse(Some("Overwrite")), None);
}

fn ctx() -> Context {
    Context {
        krate: String::from("trybuild000"),
        source_dir: directory("/git/trybuild/test_suite"),
        workspace: directory("/git/trybuild"),
        input_file: String::from("tests/ui/error.rs"),
        target_dir: directory("/git/trybuild/target"),
        path_dependencies: Vec::new(),
    }
}

#[test]
fn compile_fail_verdicts() {
    let v = diagnostics("error: oops\nerror: aborting due to previous error\n", &ctx());
    assert_eq!(check_compile_fail(true, None, &v, Update::Wip), Verdict::ShouldNotHaveCompiled);
    assert_eq!(check_compile_fail(false, None, &v, Update::Wip), Verdict::WriteWip);
    assert_eq!(check_compile_fail(false, None, &v, Update::Overwrite), Verdict::Overwrite);
    assert_eq!(check_compile_fail(false, Some("error: oops\r\n"), &v, Update::Wip), Verdict::Matched);
    assert_eq!(check_compile_fail(false, Some("error: other\n"), &v, Update::Wip), Verdict::Mismatch);
    assert_eq!(
        check_compile_fail(false, Some("error: other\n"), &v, Update::Overwrite),
        Verdict::Overwrite
    );
}

#[test]
fn xorshift_steps() {
    let mut rng = Rng::new(1);
    // t = 1 ^ (1 << 11) = 2049; w = 1 ^ 0 ^ (2049 ^ 8) = 2056
    assert_eq!(rng.u32(), 2056);
    let mut a = Rng::new(12345);
    let mut b = Rng::new(12345);
    assert_eq!(a.u32(), b.u32());
    assert_eq!(a.u32(), b.u32());
}

#[test]
fn directory_gets_trailing_separator() {
    assert_eq!(directory("/a/b"), "/a/b/");
    assert_eq!(directory("/a/b/"), "/a/b/");
    assert_eq!(directory(""), "/");
}

#[test]
fn pass_verdicts() {
    assert_eq!(check_pass(false, None), PassVerdict::CargoFail);
    assert_eq!(check_pass(true, Some(true)), PassVerdict::Passed);
    assert_eq!(check_pass(true, Some(false)), PassVerdict::RunFailed);
    assert_eq!(check_pass(true, None), PassVerdict::RunFailed);
}
