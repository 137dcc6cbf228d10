use trybuild::context::{directory, Context, PathDependency};
use trybuild::level::Normalization;
use trybuild::normalize::{apply, diagnostics, trim};

fn context(source_dir: &str, input_file: &str) -> Context {
    Context {
        krate: String::from("trybuild000"),
        source_dir: directory(source_dir),
        workspace: directory("/git/trybuild"),
        input_file: String::from(input_file),
        target_dir: directory("/git/trybuild/target"),
        path_dependencies: vec![PathDependency {
            name: String::from("diesel"),
            normalized_path: directory("/home/user/documents/rust/diesel/diesel"),
        }],
    }
}

fn run(text: &str, level: Normalization, ctx: &Context) -> String {
    let chars: Vec<char> = text.chars().collect();
    apply(&chars, level, ctx).into_iter().collect()
}

#[test]
fn relative_to_dir_keeps_line_and_column_of_input_file() {
    let ctx = context("/a/b/source", "ui/error.rs");
    let out = run("  --> /a/b/source/ui/error.rs:11:23\n", Normalization::RelativeToDir, &ctx);
    assert_eq!(out, "  --> ui/error.rs:11:23\n");
    let out = run(
        "  --> /a/b/source/ui/error.rs:11:23\n",
        Normalization::LinesOutsideInputFile,
        &ctx,
    );
    assert_eq!(out, "  --> ui/error.rs:11:23\n");
}

#[test]
fn other_file_in_source_dir_loses_line_and_column() {
    let ctx = context("/a/b/source", "ui/other.rs");
    let out = run(
        "  --> /a/b/source/ui/error.rs:11:23\n",
        Normalization::LinesOutsideInputFile,
        &ctx,
    );
    assert_eq!(out, "  --> ui/error.rs\n");
    let out = run("  --> /a/b/source/ui/error.rs:11:23\n", Normalization::RelativeToDir, &ctx);
    assert_eq!(out, "  --> ui/error.rs:11:23\n");
}

#[test]
fn closing_summary_normalizes_to_empty() {
    let ctx = context("/git/trybuild/test_suite", "tests/ui/error.rs");
    let input = "error: aborting due to 2 previous errors\n\nFor more information about this error, try `rustc --explain E0401`.\n";
    let variations = diagnostics(input, &ctx);
    assert_eq!(variations.preferred(), "");
}

#[test]
fn registry_path_becomes_cargo() {
    let ctx = context("/git/trybuild/test_suite", "tests/ui/error.rs");
    let input = "\
    ::: /home/x/.cargo/registry/src/github.com-1ecc6299db9ec823/serde_json-1.0.64/src/de.rs:2584:8
     |
2584 |     T: de::Deserialize<'a>,
     |        ------------------- required by this bound in `serde_json::from_str`
";
    let expected = "\
    ::: $CARGO/serde_json-1.0.64/src/de.rs
     |
     |     T: de::Deserialize<'a>,
     |        ------------------- required by this bound in `serde_json::from_str`
";
    assert_eq!(run(input, Normalization::CargoRegistry, &ctx), expected);
    let before = run(input, Normalization::PathDependencies, &ctx);
    assert!(before.contains("github.com-1ecc6299db9ec823"));
}

#[test]
fn any_matches_every_variant_and_nothing_else() {
    let ctx = context("/git/trybuild/test_suite", "tests/ui/error.rs");
    let input = "error: could not compile `foo`.\nwarning: unused\n";
    let variations = diagnostics(input, &ctx);
    assert!(variations.any("error: could not compile `foo`.\nwarning: unused\n"));
    assert!(variations.any("warning: unused\n"));
    assert!(variations.any(variations.preferred()));
    assert!(!variations.any("something else\n"));
    assert!(!variations.any(""));
}

#[test]
fn pipeline_is_deterministic() {
    let ctx = context("/git/trybuild/test_suite", "tests/ui/error.rs");
    let input = "error[E0277]: x\n  --> /git/trybuild/test_suite/ui/error.rs:1:2\n   |\n1  | fn f() {}\n";
    let a = diagnostics(input, &ctx);
    let b = diagnostics(input, &ctx);
    assert_eq!(a.preferred(), b.preferred());
    assert!(a.any(b.preferred()));
}

#[test]
fn crlf_and_trailing_whitespace() {
    let ctx = context("/git/trybuild/test_suite", "tests/ui/error.rs");
    let variations = diagnostics("warning: x   \r\n\r\n\r\n", &ctx);
    assert_eq!(variations.preferred(), "warning: x\n");
    assert_eq!(trim("abc \n\n\t"), "abc\n");
    assert_eq!(trim("  \n"), "");
    assert_eq!(trim(""), "");
}

#[test]
fn empty_input_gives_empty_variants() {
    let ctx = context("/git/trybuild/test_suite", "tests/ui/error.rs");
    let variations = diagnostics("", &ctx);
    assert_eq!(variations.preferred(), "");
    assert!(variations.any(""));
}

#[test]
fn concat_joins_level_by_level() {
    let ctx = context("/git/trybuild/test_suite", "tests/ui/error.rs");
    let mut a = diagnostics("warning: a\n", &ctx);
    let b = diagnostics("warning: b\n", &ctx);
    a.concat(&b);
    assert_eq!(a.preferred(), "warning: a\n\nwarning: b\n");
    let mut c = diagnostics("", &ctx);
    c.concat(&b);
    assert_eq!(c.preferred(), "warning: b\n");
}

#[test]
fn coarse_rewrite_at_early_levels() {
    let ctx = context("/git/trybuild/test_suite", "tests/ui/error.rs");
    let out = run("  --> src/main.rs:2:36\n", Normalization::Basic, &ctx);
    assert_eq!(out, "  --> $DIR/main.rs:2:36\n");
    let out = run("  --> src/main.rs:2:36\n", Normalization::ArrowOtherCrate, &ctx);
    assert_eq!(out, "  --> src/main.rs:2:36\n");
}

#[test]
fn backslashes_in_location() {
    let ctx = context("/git/trybuild/test_suite", "ui/error.rs");
    let out = run(
        "   --> \\git\\trybuild\\test_suite\\ui\\error.rs:22:61\n",
        Normalization::UnindentMultilineNote,
        &ctx,
    );
    assert_eq!(out, "   --> ui/error.rs:22:61\n");
}

#[test]
fn rust_lib_paths() {
    let ctx = context("/git/trybuild/test_suite", "tests/ui/error.rs");
    let input = "  ::: /rustlib/src/rust/src/libstd/net/ip.rs:83:1\n  ::: /rustlib/src/rust/library/std/src/net/ip.rs:83:1\n   |\n83 | pub struct Ipv4Addr {\n";
    let expected = "  ::: $RUST/src/libstd/net/ip.rs\n  ::: $RUST/std/src/net/ip.rs\n   |\n   | pub struct Ipv4Addr {\n";
    assert_eq!(run(input, Normalization::WorkspaceLines, &ctx), expected);
    assert!(run(input, Normalization::RustLib, &ctx).contains("ip.rs:83:1"));
    let input = " --> /rustc/c5c7d2b37780dac1092e75f12ab97dd56c30861d/library/core/src/fmt/mod.rs:786:1\n";
    assert_eq!(
        run(input, Normalization::UnindentMultilineNote, &ctx),
        " --> $RUST/core/src/fmt/mod.rs\n"
    );
}

#[test]
fn workspace_and_path_dependency() {
    let ctx = context("/git/trybuild/test_suite", "tests/ui/error.rs");
    let out = run("  --> /git/trybuild/src/string.rs:46:13\n", Normalization::UnindentMultilineNote, &ctx);
    assert_eq!(out, "  --> $WORKSPACE/src/string.rs\n");
    let out = run(
        "  ::: /home/user/documents/rust/diesel/diesel/src/query_builder/functions.rs:78:18\n",
        Normalization::PathDependencies,
        &ctx,
    );
    assert_eq!(out, "  ::: $DIESEL/src/query_builder/functions.rs\n");
}

#[test]
fn out_dir_of_build_script() {
    let ctx = context("/git/trybuild/test_suite", "tests/ui/error.rs");
    let out = run(
        "  --> /git/trybuild/target/debug/build/foo-0123456789abcdef/out/gen.rs:1:2\n",
        Normalization::UnindentMultilineNote,
        &ctx,
    );
    assert_eq!(out, "  --> $OUT_DIR[foo]/gen.rs\n");
}

#[test]
fn dropped_summary_lines_by_level() {
    let ctx = context("/git/trybuild/test_suite", "tests/ui/error.rs");
    let input = "error: Could not compile `x`.\nok\n";
    assert_eq!(run(input, Normalization::Basic, &ctx), input);
    assert_eq!(run(input, Normalization::StripCouldNotCompile, &ctx), "ok\n");
    let input = "To learn more, run the command again with --verbose.\n";
    assert_eq!(run(input, Normalization::Basic, &ctx), "");
}

#[test]
fn and_others_count_is_hidden() {
    let ctx = context("/git/trybuild/test_suite", "tests/ui/error.rs");
    let input = "            and 12 others\n";
    assert_eq!(run(input, Normalization::AndOthers, &ctx), "            and $N others\n");
    assert_eq!(run(input, Normalization::Unindent, &ctx), input);
    let input = "            and 1x others\n";
    assert_eq!(run(input, Normalization::AndOthers, &ctx), input);
}

#[test]
fn crate_name_and_directories_in_text() {
    let ctx = context("/git/trybuild/test_suite", "tests/ui/error.rs");
    let input = "note: see trybuild000 at /git/trybuild/test_suite/ui/a.rs:1 and /git/trybuild/test_suite-tests/x\n";
    assert_eq!(
        run(input, Normalization::UnindentMultilineNote, &ctx),
        "note: see $CRATE at $DIR/ui/a.rs:1 and $WORKSPACE/test_suite-tests/x\n"
    );
}

#[test]
fn long_type_name_note_is_dropped() {
    let ctx = context("/git/trybuild/test_suite", "tests/ui/error.rs");
    let input = "   = note: the full type name has been written to 'x.txt'\nrest\n";
    assert_eq!(run(input, Normalization::StripLongTypeNameFiles, &ctx), "rest\n");
    assert_eq!(run(input, Normalization::AndOthers, &ctx), input);
}

#[test]
fn unindent_collapses_block() {
    let ctx = context("/git/trybuild/test_suite", "tests/ui/error.rs");
    let input = "error: x\n    --> src/main.rs:1:1\n     |\n1    | fn main() {}\n     | ^\n";
    let expected = "error: x\n --> src/main.rs:1:1\n  |\n1 | fn main() {}\n  | ^\n";
    assert_eq!(run(input, Normalization::Unindent, &ctx), expected);
    assert_eq!(run(input, Normalization::LinesOutsideInputFile, &ctx), input);
}

#[test]
fn every_level_pass_is_a_variant() {
    let ctx = context("/git/trybuild/test_suite", "tests/ui/error.rs");
    let input = "error: x\n    --> /git/trybuild/test_suite/ui/a.rs:1:1\n     |\n1    | fn main() {}\nerror: Could not compile `x`.\n";
    let variations = diagnostics(input, &ctx);
    for i in 0..20 {
        let level = Normalization::nth(i);
        assert_eq!(level.index(), i);
        assert!(variations.any(&run(input, level, &ctx)));
    }
    assert_eq!(
        variations.preferred(),
        run(input, Normalization::UnindentMultilineNote, &ctx)
    );
}

#[test]
fn later_levels_drop_at_least_as_much() {
    let ctx = context("/git/trybuild/test_suite", "tests/ui/error.rs");
    let input = "Some errors have detailed explanations: E0277.\nFor more information about an error, try `rustc --explain E0277`.\nerror: could not compile `x`.\n";
    assert_eq!(run(input, Normalization::StripCouldNotCompile, &ctx), input);
    assert_eq!(
        run(input, Normalization::StripCouldNotCompile2, &ctx),
        "Some errors have detailed explanations: E0277.\nFor more information about an error, try `rustc --explain E0277`.\n"
    );
    assert_eq!(run(input, Normalization::StripForMoreInformation2, &ctx), "");
    assert_eq!(run(input, Normalization::AndOthersVerbose, &ctx), "");
}

#[test]
fn types_list_is_truncated_after_nine() {
    let ctx = context("/git/trybuild/test_suite", "tests/ui/error.rs");
    let mut input = String::from("    = help: the following other types implement trait `X`:\n");
    for i in 0..12 {
        input.push_str(&format!("              T{}\n", i));
    }
    input.push_str("error: next\n");
    let mut expected = String::from("    = help: the following other types implement trait `X`:\n");
    for i in 0..8 {
        expected.push_str(&format!("              T{}\n", i));
    }
    expected.push_str("            and $N others\nerror: next\n");
    assert_eq!(run(&input, Normalization::AndOthersVerbose, &ctx), expected);
    assert_eq!(run(&input, Normalization::UnindentAfterHelp, &ctx), input);
}

#[test]
fn dependency_variable_from_uppercase_name() {
    let upper: Vec<char> = "SERDE-JSON-CORE".chars().collect();
    let var: String = trybuild::location::dependency_variable(&upper).into_iter().collect();
    assert_eq!(var, "$SERDE_JSON_CORE");
    let ctx = Context {
        path_dependencies: vec![PathDependency {
            name: String::from("my-dep"),
            normalized_path: directory("/deps/my-dep"),
        }],
        ..context("/git/trybuild/test_suite", "tests/ui/error.rs")
    };
    let out = run("  ::: /deps/my-dep/src/lib.rs:1:1\n", Normalization::PathDependencies, &ctx);
    assert_eq!(out, "  ::: $MY_DEP/src/lib.rs\n");
}
