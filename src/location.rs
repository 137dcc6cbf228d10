//! Rewriting of the path in a location line (`--> path:line:col` or
//! `::: path:line:col`) into a stable placeholder.
use crate::context::{Context, PathDependency};
use crate::level::Normalization;
use crate::rewrite::{hide_trailing, hide_trailing_numbers};
use crate::text::{
    all_hex, all_hex_exec, chars_of, find, find_exec, fold_all, folded, last_sep, last_sep_exec,
    lemma_find_from, lemma_last_sep, matches_at, matches_at_exec, push_all, replace,
    replace_exec, slash_all, slashed, slice, starts_with, starts_with_exec,
};
use vstd::prelude::*;

verus! {

/// `s[..a] + rep + s[b..]`.
pub open spec fn splice(s: Seq<char>, a: int, rep: Seq<char>, b: int) -> Seq<char> {
    s.subrange(0, a) + rep + s.subrange(b, s.len() as int)
}

pub fn splice_exec(s: &Vec<char>, a: usize, rep: &Vec<char>, b: usize) -> (r: Vec<char>)
    requires
        a <= b <= s@.len(),
    ensures
        r@ == splice(s@, a as int, rep@, b as int),
{
    let mut r = slice(s, 0, a);
    push_all(&mut r, rep);
    let tail = slice(s, b, s.len());
    push_all(&mut r, &tail);
    r
}

/// The name of what `str::to_uppercase` returns for `s`.
pub uninterp spec fn upper_of(s: Seq<char>) -> Seq<char>;

/// Relies on `str::to_uppercase`: the uppercase form of `s`, which depends on
/// its characters alone.
#[verifier::external_body]
fn uppercase(s: &str) -> (r: String)
    ensures
        r@ == upper_of(s@),
{
    s.to_uppercase()
}

/// The placeholder for a path dependency whose name, in uppercase, is `upper`.
pub open spec fn dep_var(upper: Seq<char>) -> Seq<char> {
    seq!['$'] + replace(upper, "-"@, "_"@)
}

/// `$` followed by the uppercase dependency name with `-` turned into `_`.
pub fn dependency_variable(upper: &Vec<char>) -> (r: Vec<char>)
    ensures
        r@ == dep_var(upper@),
{
    let mut r: Vec<char> = Vec::new();
    r.push('$');
    let replaced = replace_exec(upper, &chars_of("-"), &chars_of("_"));
    push_all(&mut r, &replaced);
    assert(r@ =~= seq!['$'] + replaced@);
    r
}

/// A directory name that ends in `-` and a 16-digit lowercase hash.
pub open spec fn is_hashed(comp: Seq<char>) -> bool {
    comp.len() > 17 && comp[comp.len() - 17] == '-' && all_hex(
        comp,
        comp.len() - 16,
        comp.len() as int,
    )
}

/// Scans the path components that follow the target directory for
/// `<crate>-<hash>/out/`; the path up to `out` becomes `$OUT_DIR[<crate>]`.
/// `start` is where the current component began, `k` the position looked at.
pub open spec fn out_dir_scan(
    line: Seq<char>,
    indent: int,
    k: int,
    start: int,
    name: Option<Seq<char>>,
) -> Option<Seq<char>>
    decreases line.len() - k,
{
    if k < 0 || k >= line.len() {
        None
    } else if line[k] == '/' {
        let comp = line.subrange(start, k);
        if comp == "out"@ {
            match name {
                Some(n) => Some(splice(line, indent + 4, "$OUT_DIR["@ + n + "]"@, k)),
                None => out_dir_scan(line, indent, k + 1, k + 1, None),
            }
        } else if is_hashed(comp) {
            out_dir_scan(
                line,
                indent,
                k + 1,
                k + 1,
                Some(comp.subrange(0, comp.len() - 17)),
            )
        } else {
            out_dir_scan(line, indent, k + 1, k + 1, None)
        }
    } else {
        out_dir_scan(line, indent, k + 1, start, name)
    }
}

fn is_hashed_exec(comp: &Vec<char>) -> (r: bool)
    ensures
        r == is_hashed(comp@),
{
    let n = comp.len();
    n > 17 && comp[n - 17] == '-' && all_hex_exec(comp, n - 16, n)
}

pub open spec fn opt_seq(o: Option<Vec<char>>) -> Option<Seq<char>> {
    match o {
        Some(v) => Some(v@),
        None => None,
    }
}

pub fn out_dir_scan_exec(line: &Vec<char>, indent: usize, from: usize) -> (r: Option<Vec<char>>)
    requires
        indent + 4 <= from <= line@.len(),
    ensures
        opt_seq(r) == out_dir_scan(line@, indent as int, from as int, from as int, None),
{
    let mut k = from;
    let mut start = from;
    let mut name: Option<Vec<char>> = None;
    while k < line.len()
        invariant
            indent + 4 <= start <= k <= line@.len(),
            out_dir_scan(line@, indent as int, k as int, start as int, opt_seq(name))
                == out_dir_scan(line@, indent as int, from as int, from as int, None),
        decreases line@.len() - k,
    {
        if line[k] == '/' {
            let comp = slice(line, start, k);
            let out = chars_of("out");
            if comp.len() == 3 && starts_with_exec(&comp, &out) {
                proof {
                    reveal_strlit("out");
                    assert(comp@ =~= "out"@);
                }
                match name {
                    Some(n) => {
                        let mut rep = chars_of("$OUT_DIR[");
                        push_all(&mut rep, &n);
                        push_all(&mut rep, &chars_of("]"));
                        return Some(splice_exec(line, indent + 4, &rep, k));
                    },
                    None => {},
                }
            } else {
                proof {
                    reveal_strlit("out");
                    if comp@ == "out"@ {
                        assert(comp@.subrange(0, 3) =~= comp@);
                    }
                }
                let m = comp.len();
                if is_hashed_exec(&comp) {
                    name = Some(slice(&comp, 0, m - 17));
                } else {
                    name = None;
                }
            }
            start = k + 1;
        }
        k += 1;
    }
    None
}

/// The coarse rewrite of the earliest levels: everything between `--> ` and
/// the last path separator becomes `$DIR/`.
pub open spec fn coarse(line: Seq<char>, indent: int) -> Option<Seq<char>> {
    match last_sep(line, line.len() as int) {
        Some(c) => if c >= indent + 4 {
            Some(splice(line, indent + 4, "$DIR/"@, c + 1))
        } else {
            None
        },
        None => None,
    }
}

/// The rewrite by the target, source and workspace directories: the new line,
/// whether it points outside the input file, and whether the rewrite is final.
pub open spec fn rewrite_dirs(
    line: Seq<char>,
    lower: Seq<char>,
    indent: int,
    level: Normalization,
    ctx: Context,
) -> (Seq<char>, bool, bool) {
    let tp = ctx.target_pat();
    let sp = ctx.source_pat();
    let wp = ctx.workspace_pat();
    if find(lower, tp) == Some(indent + 4) {
        match out_dir_scan(line, indent, indent + 4 + tp.len(), indent + 4 + tp.len(), None) {
            Some(l) => (l, true, false),
            None => (line, false, false),
        }
    } else {
        match find(lower, sp) {
            Some(i) => if level.includes(Normalization::RelativeToDir) && i == indent + 4 {
                let l = splice(line, i, Seq::empty(), i + sp.len());
                if !level.includes(Normalization::LinesOutsideInputFile) {
                    (l, false, true)
                } else if starts_with(lower.subrange(i + sp.len(), lower.len() as int), ctx.input_pat()) {
                    (l, false, true)
                } else {
                    (l, true, false)
                }
            } else {
                let l = splice(line, i, "$DIR"@, i + sp.len() - 1);
                if !level.includes(Normalization::LinesOutsideInputFile) {
                    (l, false, true)
                } else {
                    (l, true, false)
                }
            },
            None => match find(lower, wp) {
                Some(i) => (splice(line, i, "$WORKSPACE"@, i + wp.len() - 1), true, false),
                None => (line, false, false),
            },
        }
    }
}


pub fn coarse_exec(line: &Vec<char>, indent: usize) -> (r: Option<Vec<char>>)
    requires
        indent + 4 <= line@.len(),
    ensures
        opt_seq(r) == coarse(line@, indent as int),
{
    let _n = line.len();
    proof {
        lemma_last_sep(line@, line@.len() as int);
    }
    match last_sep_exec(line) {
        Some(c) => if c >= indent + 4 {
            Some(splice_exec(line, indent + 4, &chars_of("$DIR/"), c + 1))
        } else {
            None
        },
        None => None,
    }
}

pub fn rewrite_dirs_exec(
    line: &Vec<char>,
    lower: &Vec<char>,
    indent: usize,
    level: Normalization,
    ctx: &Context,
) -> (r: (Vec<char>, bool, bool))
    requires
        ctx.wf(),
        lower@.len() == line@.len(),
        indent + 4 <= line@.len(),
    ensures
        (r.0@, r.1, r.2) == rewrite_dirs(line@, lower@, indent as int, level, *ctx),
{
    let _n = line.len();
    let _nl = lower.len();
    let tp = fold_all(&chars_of(ctx.target_dir.as_str()));
    let sp = fold_all(&chars_of(ctx.source_dir.as_str()));
    let wp = fold_all(&chars_of(ctx.workspace.as_str()));
    proof {
        lemma_find_from(lower@, tp@, 0);
        lemma_find_from(lower@, sp@, 0);
        lemma_find_from(lower@, wp@, 0);
    }
    if find_exec(lower, &tp) == Some(indent + 4) {
        let from = indent + 4 + tp.len();
        match out_dir_scan_exec(line, indent, from) {
            Some(l) => (l, true, false),
            None => (slice(line, 0, line.len()), false, false),
        }
    } else {
        match find_exec(lower, &sp) {
            Some(i) => if level.at_least(Normalization::RelativeToDir) && i == indent + 4 {
                let l = splice_exec(line, i, &Vec::new(), i + sp.len());
                if !level.at_least(Normalization::LinesOutsideInputFile) {
                    (l, false, true)
                } else {
                    let ip = fold_all(&chars_of(ctx.input_file.as_str()));
                    let rest = slice(lower, i + sp.len(), lower.len());
                    if starts_with_exec(&rest, &ip) {
                        (l, false, true)
                    } else {
                        (l, true, false)
                    }
                }
            } else {
                let l = splice_exec(line, i, &chars_of("$DIR"), i + sp.len() - 1);
                if !level.at_least(Normalization::LinesOutsideInputFile) {
                    (l, false, true)
                } else {
                    (l, true, false)
                }
            },
            None => match find_exec(lower, &wp) {
                Some(i) => (splice_exec(line, i, &chars_of("$WORKSPACE"), i + wp.len() - 1), true, false),
                None => (slice(line, 0, line.len()), false, false),
            },
        }
    }
}


/// The rewrite by the first path dependency, from the `j`-th on, whose path
/// occurs in the line.
pub open spec fn dep_rewrite(
    line: Seq<char>,
    lower: Seq<char>,
    deps: Seq<PathDependency>,
    j: int,
) -> Option<Seq<char>>
    decreases deps.len() - j,
{
    if j < 0 || j >= deps.len() {
        None
    } else {
        let pat = folded(deps[j].normalized_path@);
        match find(lower, pat) {
            Some(i) => Some(splice(line, i, dep_var(upper_of(deps[j].name@)), i + pat.len() - 1)),
            None => dep_rewrite(line, lower, deps, j + 1),
        }
    }
}

pub fn dep_rewrite_exec(line: &Vec<char>, lower: &Vec<char>, ctx: &Context) -> (r: Option<
    Vec<char>,
>)
    requires
        ctx.wf(),
        lower@.len() == line@.len(),
    ensures
        opt_seq(r) == dep_rewrite(line@, lower@, ctx.path_dependencies@, 0),
{
    let _n = line.len();
    let deps = &ctx.path_dependencies;
    let mut j: usize = 0;
    while j < deps.len()
        invariant
            ctx.wf(),
            deps == &ctx.path_dependencies,
            lower@.len() == line@.len(),
            line@.len() <= usize::MAX,
            j <= deps@.len(),
            dep_rewrite(line@, lower@, deps@, j as int) == dep_rewrite(line@, lower@, deps@, 0),
        decreases deps@.len() - j,
    {
        let dep = &deps[j];
        let pat = fold_all(&chars_of(dep.normalized_path.as_str()));
        proof {
            lemma_find_from(lower@, pat@, 0);
            assert(deps@[j as int].normalized_path@.len() > 0);
        }
        match find_exec(lower, &pat) {
            Some(i) => {
                let upper = uppercase(dep.name.as_str());
                let var = dependency_variable(&chars_of(upper.as_str()));
                return Some(splice_exec(line, i, &var, i + pat.len() - 1));
            },
            None => {},
        }
        j += 1;
    }
    None
}

/// The rewrite of a path into the standard library's sources to `$RUST`.
pub open spec fn rust_lib(line: Seq<char>, indent: int) -> Option<Seq<char>> {
    if indent + 4 > line.len() {
        None
    } else {
        rust_lib_in(line, indent)
    }
}

pub open spec fn rust_lib_in(line: Seq<char>, indent: int) -> Option<Seq<char>> {
    match find(line, "/rustlib/src/rust/src/"@) {
        // `.../rustlib/src/rust/src/libstd/net/ip.rs` -> `$RUST/src/libstd/net/ip.rs`
        Some(pos) => if pos + 17 >= indent + 4 {
            Some(splice(line, indent + 4, "$RUST"@, pos + 17))
        } else {
            None
        },
        None => match find(line, "/rustlib/src/rust/library/"@) {
            // `.../rustlib/src/rust/library/std/src/net/ip.rs` -> `$RUST/std/src/net/ip.rs`
            Some(pos) => if pos + 25 >= indent + 4 {
                Some(splice(line, indent + 4, "$RUST"@, pos + 25))
            } else {
                None
            },
            // `/rustc/<40 hex digits>/library/std/src/net/ip.rs` -> `$RUST/std/src/net/ip.rs`
            None => if matches_at(line, indent + 4, "/rustc/"@) && indent + 51 <= line.len()
                && all_hex(line, indent + 11, indent + 51) && matches_at(
                line,
                indent + 51,
                "/library/"@,
            ) {
                Some(splice(line, indent + 4, "$RUST"@, indent + 59))
            } else {
                None
            },
        },
    }
}

pub fn rust_lib_exec(line: &Vec<char>, indent: usize) -> (r: Option<Vec<char>>)
    ensures
        opt_seq(r) == rust_lib(line@, indent as int),
{
    let n = line.len();
    if indent > n || 4 > n - indent {
        return None;
    }
    let libstd_src = chars_of("/rustlib/src/rust/src/");
    let library = chars_of("/rustlib/src/rust/library/");
    proof {
        reveal_strlit("/rustlib/src/rust/src/");
        reveal_strlit("/rustlib/src/rust/library/");
        reveal_strlit("/library/");
        lemma_find_from(line@, libstd_src@, 0);
        lemma_find_from(line@, library@, 0);
    }
    match find_exec(line, &libstd_src) {
        Some(pos) => if pos + 17 >= indent + 4 {
            Some(splice_exec(line, indent + 4, &chars_of("$RUST"), pos + 17))
        } else {
            None
        },
        None => match find_exec(line, &library) {
            Some(pos) => if pos + 25 >= indent + 4 {
                Some(splice_exec(line, indent + 4, &chars_of("$RUST"), pos + 25))
            } else {
                None
            },
            None => if 47 <= n - indent - 4 && matches_at_exec(line, indent + 4, &chars_of("/rustc/"))
                && all_hex_exec(line, indent + 11, indent + 51) && matches_at_exec(
                line,
                indent + 51,
                &chars_of("/library/"),
            ) {
                Some(splice_exec(line, indent + 4, &chars_of("$RUST"), indent + 59))
            } else {
                None
            },
        },
    }
}

/// The start of the 16-digit hash in a path into the registry cache.
pub open spec fn registry_hash_start(line: Seq<char>) -> Option<int> {
    match find(line, "/registry/src/github.com-"@) {
        Some(pos) => Some(pos + "/registry/src/github.com-"@.len()),
        None => match find(line, "/registry/src/index.crates.io-"@) {
            Some(pos) => Some(pos + "/registry/src/index.crates.io-"@.len()),
            None => None,
        },
    }
}

/// The rewrite of a path into the registry cache to `$CARGO`:
/// `/home/.cargo/registry/src/github.com-1ecc6299db9ec823/serde_json-1.0.64/src/de.rs`
/// becomes `$CARGO/serde_json-1.0.64/src/de.rs`.
pub open spec fn cargo_registry(line: Seq<char>, indent: int) -> Option<Seq<char>> {
    if indent + 4 > line.len() {
        None
    } else {
        cargo_registry_in(line, indent)
    }
}

pub open spec fn cargo_registry_in(line: Seq<char>, indent: int) -> Option<Seq<char>> {
    match registry_hash_start(line) {
        Some(hs) => if hs + 16 <= line.len() && all_hex(line, hs, hs + 16) && matches_at(
            line,
            hs + 16,
            "/"@,
        ) && indent + 4 <= hs + 16 {
            Some(splice(line, indent + 4, "$CARGO"@, hs + 16))
        } else {
            None
        },
        None => None,
    }
}

pub fn cargo_registry_exec(line: &Vec<char>, indent: usize) -> (r: Option<Vec<char>>)
    ensures
        opt_seq(r) == cargo_registry(line@, indent as int),
{
    let n = line.len();
    if indent > n || 4 > n - indent {
        return None;
    }
    let gh = chars_of("/registry/src/github.com-");
    let ix = chars_of("/registry/src/index.crates.io-");
    proof {
        lemma_find_from(line@, gh@, 0);
        lemma_find_from(line@, ix@, 0);
    }
    let hash_start = match find_exec(line, &gh) {
        Some(pos) => Some(pos + gh.len()),
        None => match find_exec(line, &ix) {
            Some(pos) => Some(pos + ix.len()),
            None => None,
        },
    };
    match hash_start {
        Some(hs) => if hs <= n && 16 <= n - hs && all_hex_exec(line, hs, hs + 16)
            && matches_at_exec(line, hs + 16, &chars_of("/")) && indent + 4 <= hs + 16 {
            Some(splice_exec(line, indent + 4, &chars_of("$CARGO"), hs + 16))
        } else {
            None
        },
        None => None,
    }
}


/// The precise rewrite of a location line, by the directories of the context,
/// the path dependencies, the standard library and the registry cache: the new
/// line, and whether the lines of the snippet that follows lose their numbers.
pub open spec fn precise(line: Seq<char>, indent: int, level: Normalization, ctx: Context) -> (
    Seq<char>,
    bool,
) {
    let l1 = slashed(line);
    let lower = folded(l1);
    let (l2, oc2, done) = rewrite_dirs(l1, lower, indent, level, ctx);
    if done {
        (l2, false)
    } else {
        let (l3, oc3) = if level.includes(Normalization::PathDependencies) && !oc2 {
            match dep_rewrite(l2, lower, ctx.path_dependencies@, 0) {
                Some(l) => (l, true),
                None => (l2, false),
            }
        } else {
            (l2, oc2)
        };
        let (l4, oc4) = if level.includes(Normalization::RustLib) && !oc3 {
            match rust_lib(l3, indent) {
                Some(l) => (l, true),
                None => (l3, false),
            }
        } else {
            (l3, oc3)
        };
        let (l5, oc5) = if level.includes(Normalization::CargoRegistry) && !oc4 {
            match cargo_registry(l4, indent) {
                Some(l) => (l, true),
                None => (l4, false),
            }
        } else {
            (l4, oc4)
        };
        if oc5 && level.includes(Normalization::WorkspaceLines) {
            (hide_trailing(l5, 2), true)
        } else {
            (l5, false)
        }
    }
}

/// The rewrite of a location line whose marker (`--> ` when `arrow`, else
/// `::: `) starts at `indent`.
pub open spec fn rewrite_location(
    line: Seq<char>,
    indent: int,
    arrow: bool,
    level: Normalization,
    ctx: Context,
) -> (Seq<char>, bool) {
    let c = if arrow && !level.includes(Normalization::ArrowOtherCrate) {
        coarse(line, indent)
    } else {
        None
    };
    match c {
        Some(l) => (l, false),
        None => precise(line, indent, level, ctx),
    }
}

fn precise_exec(line: &Vec<char>, indent: usize, level: Normalization, ctx: &Context) -> (r: (
    Vec<char>,
    bool,
))
    requires
        ctx.wf(),
        indent + 4 <= line@.len(),
    ensures
        (r.0@, r.1) == precise(line@, indent as int, level, *ctx),
{
    let l1 = slash_all(line);
    let lower = fold_all(&l1);
    let (l2, oc2, done) = rewrite_dirs_exec(&l1, &lower, indent, level, ctx);
    if done {
        return (l2, false);
    }
    let mut l = l2;
    let mut oc = oc2;
    if level.at_least(Normalization::PathDependencies) && !oc {
        proof {
            assert(l@ == l1@);
        }
        match dep_rewrite_exec(&l, &lower, ctx) {
            Some(x) => {
                l = x;
                oc = true;
            },
            None => {},
        }
    }
    if level.at_least(Normalization::RustLib) && !oc {
        match rust_lib_exec(&l, indent) {
            Some(x) => {
                l = x;
                oc = true;
            },
            None => {},
        }
    }
    if level.at_least(Normalization::CargoRegistry) && !oc {
        match cargo_registry_exec(&l, indent) {
            Some(x) => {
                l = x;
                oc = true;
            },
            None => {},
        }
    }
    if oc && level.at_least(Normalization::WorkspaceLines) {
        hide_trailing_numbers(&mut l);
        (l, true)
    } else {
        (l, false)
    }
}

pub fn rewrite_location_exec(
    line: &Vec<char>,
    indent: usize,
    arrow: bool,
    level: Normalization,
    ctx: &Context,
) -> (r: (Vec<char>, bool))
    requires
        ctx.wf(),
        indent + 4 <= line@.len(),
    ensures
        (r.0@, r.1) == rewrite_location(line@, indent as int, arrow, level, *ctx),
{
    if arrow && !level.at_least(Normalization::ArrowOtherCrate) {
        match coarse_exec(line, indent) {
            Some(l) => {
                return (l, false);
            },
            None => {},
        }
    }
    precise_exec(line, indent, level, ctx)
}

} // verus!
