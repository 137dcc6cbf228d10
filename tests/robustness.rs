use trybuild::context::{directory, Context, PathDependency};
use trybuild::normalize::diagnostics;
use trybuild::prng::Rng;

const PIECES: &[&str] = &[
    "error", "warning", "note:", "help:", "[E0277]", ": ", "-->", ":::", " --> ", " ::: ",
    "  ", "      ", "|", "| ", "= ", "...", "... ", "\n", "\r\n", "\r", "12", "0", ":3:4",
    "/git/trybuild/test_suite/", "/GIT/TRYBUILD/", "\\git\\trybuild\\", "/git/trybuild/target/",
    "debug/build/foo-0123456789abcdef/out/", "out/", "trybuild000", "trybuild-tests",
    "/rustlib/src/rust/src/", "/rustlib/src/rust/library/", "/rustc/",
    "c5c7d2b37780dac1092e75f12ab97dd56c30861d", "/library/",
    "/registry/src/github.com-1ecc6299db9ec823/", "/registry/src/index.crates.io-",
    "/home/user/documents/rust/diesel/diesel/", "and 7 others", "and $N others",
    "= help: the following other types implement trait ", "= note: ",
    "the full type name has been written to", "error: aborting due to ",
    "For more information about this error, try `rustc --explain", "é", "\u{a0}", "\t", "x",
];

fn context() -> Context {
    Context {
        krate: String::from("trybuild000"),
        source_dir: directory("/git/trybuild/test_suite"),
        workspace: directory("/git/trybuild"),
        input_file: String::from("tests/ui/error.rs"),
        target_dir: directory("/git/trybuild/target"),
        path_dependencies: vec![PathDependency {
            name: String::from("diesel"),
            normalized_path: directory("/home/user/documents/rust/diesel/diesel"),
        }],
    }
}

#[test]
fn random_inputs_never_panic_and_are_deterministic() {
    let ctx = context();
    let mut rng = Rng::new(0x5eed);
    for _ in 0..300 {
        let n = (rng.u32() % 40) as usize;
        let mut input = String::new();
        for _ in 0..n {
            input.push_str(PIECES[(rng.u32() as usize) % PIECES.len()]);
        }
        let a = diagnostics(&input, &ctx);
        let b = diagnostics(&input, &ctx);
        assert_eq!(a.preferred(), b.preferred());
        assert!(a.any(b.preferred()));
        let p = a.preferred();
        assert!(p.is_empty() || (p.ends_with('\n') && !p.ends_with("\n\n\n")));
    }
}
