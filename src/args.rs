//! Arguments: the filters that select test cases, and the flags handed to cargo.
use crate::expand::ExpandedTest;
use crate::path::{pushed, push};
use crate::text::{chars_of, find, find_exec, slice, starts_with, starts_with_exec};
use vstd::prelude::*;

verus! {

/// The filter that an argument `trybuild=<filter>` gives, if it is one with a
/// non-empty filter.
pub open spec fn filter_of(arg: Seq<char>) -> Option<Seq<char>> {
    if starts_with(arg, "trybuild="@) && arg != "trybuild="@ {
        Some(arg.subrange(9, arg.len() as int))
    } else {
        None
    }
}

/// The filters among the arguments, in order.
pub open spec fn filters_of(args: Seq<Seq<char>>) -> Seq<Seq<char>>
    decreases args.len(),
{
    if args.len() == 0 {
        Seq::empty()
    } else {
        let rest = filters_of(args.drop_last());
        match filter_of(args.last()) {
            Some(f) => rest.push(f),
            None => rest,
        }
    }
}

/// Whether a test path is selected by the filters: by any of them, as a
/// substring.
pub open spec fn selected(path: Seq<char>, filters: Seq<Seq<char>>) -> bool {
    filters.len() == 0 || exists|k: int| 0 <= k < filters.len() && find(path, filters[k]) is Some
}

/// The tests that the filters select, in order.
pub open spec fn kept(tests: Seq<ExpandedTest>, filters: Seq<Seq<char>>) -> Seq<ExpandedTest>
    decreases tests.len(),
{
    if tests.len() == 0 {
        Seq::empty()
    } else {
        let rest = kept(tests.drop_last(), filters);
        if selected(tests.last().test.path@, filters) {
            rest.push(tests.last())
        } else {
            rest
        }
    }
}

pub fn filters(args: &Vec<String>) -> (r: Vec<Vec<char>>)
    ensures
        crate::text::views(r@) == filters_of(args@.map_values(|a: String| a@)),
{
    let ghost av = args@.map_values(|a: String| a@);
    let prefix = chars_of("trybuild=");
    proof {
        reveal_strlit("trybuild=");
    }
    let mut r: Vec<Vec<char>> = Vec::new();
    let mut i: usize = 0;
    assert(av.subrange(0, 0) =~= Seq::<Seq<char>>::empty());
    assert(crate::text::views(r@) =~= Seq::<Seq<char>>::empty());
    while i < args.len()
        invariant
            av == args@.map_values(|a: String| a@),
            prefix@ == "trybuild="@,
            i <= args@.len(),
            crate::text::views(r@) == filters_of(av.subrange(0, i as int)),
        decreases args@.len() - i,
    {
        let arg = chars_of(args[i].as_str());
        proof {
            reveal_strlit("trybuild=");
        }
        assert(av.subrange(0, i + 1).drop_last() =~= av.subrange(0, i as int));
        if starts_with_exec(&arg, &prefix) && arg.len() != 9 {
            let ghost before = crate::text::views(r@);
            let f = slice(&arg, 9, arg.len());
            r.push(f);
            assert(crate::text::views(r@) =~= before.push(f@));
        } else {
            proof {
                if arg@.len() == 9 && starts_with(arg@, "trybuild="@) {
                    assert(arg@ =~= arg@.subrange(0, 9));
                }
            }
        }
        i += 1;
    }
    assert(av.subrange(0, i as int) =~= av);
    r
}

fn is_selected(path: &str, filters: &Vec<Vec<char>>) -> (r: bool)
    ensures
        r == selected(path@, crate::text::views(filters@)),
{
    if filters.len() == 0 {
        return true;
    }
    let p = chars_of(path);
    let mut k: usize = 0;
    while k < filters.len()
        invariant
            p@ == path@,
            k <= filters@.len(),
            forall|j: int| 0 <= j < k ==> find(path@, #[trigger] filters@[j]@) is None,
        decreases filters@.len() - k,
    {
        if find_exec(&p, &filters[k]).is_some() {
            assert(crate::text::views(filters@)[k as int] == filters@[k as int]@);
            return true;
        }
        k += 1;
    }
    assert(forall|j: int|
        0 <= j < filters@.len() ==> crate::text::views(filters@)[j] == filters@[j]@);
    false
}

/// Keeps the tests whose path contains one of the `trybuild=` filters among
/// `args`; with no filter, all of them.
pub fn filter(tests: Vec<ExpandedTest>, args: &Vec<String>) -> (r: Vec<ExpandedTest>)
    ensures
        r@ == kept(tests@, filters_of(args@.map_values(|a: String| a@))),
{
    let fs = filters(args);
    let ghost fv = crate::text::views(fs@);
    let mut r: Vec<ExpandedTest> = Vec::new();
    let mut rest = tests;
    let ghost all = rest@;
    let n = rest.len();
    let mut i: usize = 0;
    assert(all.subrange(0, 0) =~= Seq::<ExpandedTest>::empty());
    assert(r@ =~= Seq::<ExpandedTest>::empty());
    assert(rest@ =~= all.subrange(0, n as int));
    while i < n
        invariant
            n == all.len(),
            fv == crate::text::views(fs@),
            i <= n,
            rest@ == all.subrange(i as int, n as int),
            r@ == kept(all.subrange(0, i as int), fv),
        decreases n - i,
    {
        assert(all.subrange(0, i + 1).drop_last() =~= all.subrange(0, i as int));
        let t = rest.remove(0);
        assert(rest@ =~= all.subrange(i + 1, n as int));
        if is_selected(t.test.path.as_str(), &fs) {
            r.push(t);
        }
        i += 1;
    }
    assert(all.subrange(0, i as int) =~= all);
    r
}


/// The strings of `xs` with `sep` between each two.
pub open spec fn join_with(xs: Seq<Seq<char>>, sep: Seq<char>) -> Seq<char>
    decreases xs.len(),
{
    if xs.len() == 0 {
        Seq::empty()
    } else if xs.len() == 1 {
        xs[0]
    } else {
        join_with(xs.drop_last(), sep) + sep + xs.last()
    }
}

fn join_commas(xs: &Vec<String>) -> (r: String)
    ensures
        r@ == join_with(xs@.map_values(|s: String| s@), ","@),
{
    let ghost xv = xs@.map_values(|s: String| s@);
    let mut r = String::new();
    let mut i: usize = 0;
    assert(xv.subrange(0, 0) =~= Seq::<Seq<char>>::empty());
    while i < xs.len()
        invariant
            xv == xs@.map_values(|s: String| s@),
            i <= xs@.len(),
            r@ == join_with(xv.subrange(0, i as int), ","@),
        decreases xs@.len() - i,
    {
        assert(xv.subrange(0, i + 1).drop_last() =~= xv.subrange(0, i as int));
        if i > 0 {
            r.append(",");
        } else {
            assert(r@ + xv[0] =~= xv[0]);
        }
        r.append(xs[i].as_str());
        i += 1;
    }
    assert(xv.subrange(0, i as int) =~= xv);
    r
}

/// The feature flags for cargo: none by default, else the listed features
/// alone.
pub open spec fn feature_args_of(features: Option<Seq<Seq<char>>>) -> Seq<Seq<char>> {
    match features {
        Some(fs) => seq!["--no-default-features"@, "--features"@, join_with(fs, ","@)],
        None => Seq::empty(),
    }
}

pub fn feature_args(features: &Option<Vec<String>>) -> (r: Vec<String>)
    ensures
        r@.map_values(|s: String| s@) == feature_args_of(
            match features {
                Some(fs) => Some(fs@.map_values(|s: String| s@)),
                None => None,
            },
        ),
{
    let mut r: Vec<String> = Vec::new();
    match features {
        Some(fs) => {
            r.push(String::from_str("--no-default-features"));
            r.push(String::from_str("--features"));
            r.push(join_commas(fs));
        },
        None => {},
    }
    assert(r@.map_values(|s: String| s@) =~= feature_args_of(
        match features {
            Some(fs) => Some(fs@.map_values(|s: String| s@)),
            None => None,
        },
    ));
    r
}

/// The flags for rustc: the `trybuild` cfg, verbose output and the allowed
/// `dead_code` lint, and coverage instrumentation when the flags already in
/// effect ask for it.
pub open spec fn rustflags_of(env_flags: Option<Seq<char>>) -> Seq<Seq<char>> {
    let base = seq!["--cfg"@, "trybuild"@, "--verbose"@, "-A"@, "dead_code"@];
    match env_flags {
        Some(f) => if find(f, "-C instrument-coverage"@) is Some {
            base + seq!["-C"@, "instrument-coverage"@]
        } else {
            base
        },
        None => base,
    }
}

pub fn rustflags(env_flags: Option<&str>) -> (r: Vec<String>)
    ensures
        r@.map_values(|s: String| s@) == rustflags_of(
            match env_flags {
                Some(f) => Some(f@),
                None => None,
            },
        ),
{
    let mut r: Vec<String> = Vec::new();
    r.push(String::from_str("--cfg"));
    r.push(String::from_str("trybuild"));
    r.push(String::from_str("--verbose"));
    r.push(String::from_str("-A"));
    r.push(String::from_str("dead_code"));
    let coverage = match env_flags {
        Some(f) => find_exec(&chars_of(f), &chars_of("-C instrument-coverage")).is_some(),
        None => false,
    };
    if coverage {
        r.push(String::from_str("-C"));
        r.push(String::from_str("instrument-coverage"));
    }
    assert(r@.map_values(|s: String| s@) =~= rustflags_of(
        match env_flags {
            Some(f) => Some(f@),
            None => None,
        },
    ));
    r
}

/// The target directory of the test builds: `tests/trybuild` under the
/// target directory.
pub fn cargo_target_dir(target_dir: &str) -> (r: String)
    ensures
        r@ == pushed(pushed(target_dir@, "tests"@), "trybuild"@),
{
    let mut r = String::from_str(target_dir);
    push(&mut r, "tests");
    push(&mut r, "trybuild");
    r
}

} // verus!
