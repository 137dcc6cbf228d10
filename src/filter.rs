//! The line filter: one pass over the lines of a diagnostic at one level.
use crate::context::Context;
use crate::level::Normalization;
use crate::location::{opt_seq, rewrite_location, rewrite_location_exec, splice, splice_exec};
use crate::rewrite::{
    continuation_count, continuation_count_exec, hide_leading, hide_leading_numbers, replace_ci,
    replace_case_insensitive,
};
use crate::text::{
    equals,
    chars_of, push_all, ends_with, ends_with_exec, indent_exec, indent_of, is_digit, lemma_ws_end, replace,
    replace_exec, slash_all, slashed, slice, starts_with, starts_with_exec, trim_end,
    trim_end_exec, trim_start, trim_start_exec, views,
};
use vstd::prelude::*;

verus! {

/// Lines that carry nothing of the diagnostics themselves: the closing
/// summaries, and the note on an outdated compiler.
pub open spec fn dropped(line: Seq<char>, ts: Seq<char>, level: Normalization) -> bool {
    ||| starts_with(line, "error: aborting due to "@)
    ||| line == "To learn more, run the command again with --verbose."@
    ||| (starts_with(ts, "= note: this compiler was built on 2"@) && ends_with(
        ts,
        "; consider upgrading it if it is out of date"@,
    ))
    ||| (level.includes(Normalization::StripCouldNotCompile) && starts_with(
        line,
        "error: Could not compile `"@,
    ))
    ||| (level.includes(Normalization::StripCouldNotCompile2) && starts_with(
        line,
        "error: could not compile `"@,
    ))
    ||| (level.includes(Normalization::StripForMoreInformation) && starts_with(
        line,
        "For more information about this error, try `rustc --explain"@,
    ))
    ||| (level.includes(Normalization::StripForMoreInformation2) && (starts_with(
        line,
        "Some errors have detailed explanations:"@,
    ) || starts_with(line, "For more information about an error, try `rustc --explain"@)))
}

fn dropped_exec(line: &Vec<char>, ts: &Vec<char>, level: Normalization) -> (r: bool)
    ensures
        r == dropped(line@, ts@, level),
{
    starts_with_exec(line, &chars_of("error: aborting due to ")) || equals(
        line,
        &chars_of("To learn more, run the command again with --verbose."),
    ) || (starts_with_exec(ts, &chars_of("= note: this compiler was built on 2"))
        && ends_with_exec(ts, &chars_of("; consider upgrading it if it is out of date")))
        || (level.at_least(Normalization::StripCouldNotCompile) && starts_with_exec(
        line,
        &chars_of("error: Could not compile `"),
    )) || (level.at_least(Normalization::StripCouldNotCompile2) && starts_with_exec(
        line,
        &chars_of("error: could not compile `"),
    )) || (level.at_least(Normalization::StripForMoreInformation) && starts_with_exec(
        line,
        &chars_of("For more information about this error, try `rustc --explain"),
    )) || (level.at_least(Normalization::StripForMoreInformation2) && (starts_with_exec(
        line,
        &chars_of("Some errors have detailed explanations:"),
    ) || starts_with_exec(
        line,
        &chars_of("For more information about an error, try `rustc --explain"),
    )))
}

pub open spec fn all_digits(s: Seq<char>, a: int, b: int) -> bool {
    forall|k: int| a <= k < b ==> is_digit(#[trigger] s[k])
}

fn all_digits_exec(s: &Vec<char>, a: usize, b: usize) -> (r: bool)
    requires
        a <= b <= s@.len(),
    ensures
        r == all_digits(s@, a as int, b as int),
{
    let mut k = a;
    while k < b
        invariant
            a <= k <= b,
            b <= s@.len(),
            all_digits(s@, a as int, k as int),
        decreases b - k,
    {
        if !crate::text::is_ascii_digit(s[k]) {
            return false;
        }
        k += 1;
    }
    true
}

/// `and 12 others` becomes `and $N others`.
pub open spec fn and_others(l: Seq<char>) -> Seq<char> {
    let ts = trim_start(l);
    if starts_with(ts, "and "@) && ends_with(l, " others"@) {
        let ns = indent_of(l) + 4;
        let ne = l.len() - 7;
        if ns < ne && all_digits(l, ns, ne) {
            splice(l, ns, "$N"@, ne)
        } else {
            l
        }
    } else {
        l
    }
}

fn and_others_exec(l: &Vec<char>) -> (r: Vec<char>)
    ensures
        r@ == and_others(l@),
{
    let n = l.len();
    let ts = trim_start_exec(l);
    if starts_with_exec(&ts, &chars_of("and ")) && ends_with_exec(l, &chars_of(" others")) {
        proof {
            reveal_strlit(" others");
            lemma_ws_end(l@, 0);
        }
        let ind = indent_exec(l);
        if ind < n && 4 < n - ind && ind + 4 < n - 7 {
            let ns = ind + 4;
            let ne = n - 7;
            if all_digits_exec(l, ns, ne) {
                return splice_exec(l, ns, &chars_of("$N"), ne);
            }
        }
    }
    slice(l, 0, n)
}

/// A note that the full type name was written to a file.
pub open spec fn long_type_note(l: Seq<char>) -> bool {
    let t = trim_start(l);
    let t2 = if starts_with(t, "= note: "@) {
        t.subrange(8, t.len() as int)
    } else {
        t
    };
    starts_with(t2, "the full type name has been written to"@) || starts_with(
        t2,
        "the full name for the type has been written to"@,
    )
}

fn long_type_note_exec(l: &Vec<char>) -> (r: bool)
    ensures
        r == long_type_note(l@),
{
    let t = trim_start_exec(l);
    let t2 = if starts_with_exec(&t, &chars_of("= note: ")) {
        proof {
            reveal_strlit("= note: ");
        }
        slice(&t, 8, t.len())
    } else {
        t
    };
    starts_with_exec(&t2, &chars_of("the full type name has been written to")) || starts_with_exec(
        &t2,
        &chars_of("the full name for the type has been written to"),
    )
}

/// The truncation of a long list of types that implement a trait: the ninth
/// listed type becomes `and $N others` when the next line is indented alike,
/// and the ones after it are dropped. `count` is the number of listed types
/// seen so far, if such a list is open.
pub open spec fn truncate_list(
    lines: Seq<Seq<char>>,
    index: int,
    l: Seq<char>,
    indent: int,
    count: Option<usize>,
) -> (Option<Seq<char>>, Option<usize>) {
    let ts = trim_start(l);
    if starts_with(ts, "= help: the following types implement trait "@) || starts_with(
        ts,
        "= help: the following other types implement trait "@,
    ) {
        (Some(l), Some(0))
    } else {
        match count {
            None => (Some(l), None),
            Some(c) => if indent >= 12 && ts != "and $N others"@ {
                let c2: usize = if c >= 10 {
                    10
                } else {
                    (c + 1) as usize
                };
                if c2 == 9 {
                    let l2 = if index + 1 < lines.len() && indent == indent_of(lines[index + 1])
                        && indent - 2 <= l.len() {
                        splice(l, indent - 2, "and $N others"@, l.len() as int)
                    } else {
                        l
                    };
                    (Some(l2), Some(c2))
                } else if c2 > 9 {
                    (None, Some(c2))
                } else {
                    (Some(l), Some(c2))
                }
            } else {
                (Some(l), None)
            },
        }
    }
}

fn truncate_list_exec(
    lines: &Vec<Vec<char>>,
    index: usize,
    l: Vec<char>,
    indent: usize,
    count: Option<usize>,
) -> (r: (Option<Vec<char>>, Option<usize>))
    requires
        index < lines@.len(),
    ensures
        (opt_seq(r.0), r.1) == truncate_list(views(lines@), index as int, l@, indent as int, count),
{
    let _nl = lines.len();
    let ts = trim_start_exec(&l);
    if starts_with_exec(&ts, &chars_of("= help: the following types implement trait "))
        || starts_with_exec(&ts, &chars_of("= help: the following other types implement trait "))
    {
        return (Some(l), Some(0));
    }
    match count {
        None => (Some(l), None),
        Some(c) => {
            if indent >= 12 && !equals(&ts, &chars_of("and $N others")) {
                let c2: usize = if c >= 10 {
                    10
                } else {
                    c + 1
                };
                if c2 == 9 {
                    let n = l.len();
                    if index + 1 < lines.len() && indent == indent_exec(&lines[index + 1]) && indent
                        - 2 <= n {
                        (Some(splice_exec(&l, indent - 2, &chars_of("and $N others"), n)), Some(c2))
                    } else {
                        (Some(l), Some(c2))
                    }
                } else if c2 > 9 {
                    (None, Some(c2))
                } else {
                    (Some(l), Some(c2))
                }
            } else {
                (Some(l), None)
            }
        },
    }
}

/// The crate name, the source directory and the workspace replaced by
/// placeholders.
pub open spec fn placeholders(l: Seq<char>, ctx: Context) -> Seq<char> {
    let a = replace(l, ctx.krate@, "$CRATE"@);
    let b = replace_ci(a, ctx.source_dir@, "$DIR/"@);
    replace_ci(b, ctx.workspace@, "$WORKSPACE/"@)
}

fn placeholders_exec(l: &Vec<char>, ctx: &Context) -> (r: Vec<char>)
    ensures
        r@ == placeholders(l@, *ctx),
{
    let a = replace_exec(l, &chars_of(ctx.krate.as_str()), &chars_of("$CRATE"));
    let b = replace_case_insensitive(&a, &chars_of(ctx.source_dir.as_str()), &chars_of("$DIR/"));
    replace_case_insensitive(&b, &chars_of(ctx.workspace.as_str()), &chars_of("$WORKSPACE/"))
}


/// The rules for a line that is not a location line.
pub open spec fn filter_plain(
    lines: Seq<Seq<char>>,
    index: int,
    line: Seq<char>,
    indent: int,
    level: Normalization,
    ctx: Context,
    count: Option<usize>,
) -> (Option<Seq<char>>, Option<usize>) {
    if dropped(line, trim_start(line), level) {
        (None, count)
    } else {
        let l1 = if level.includes(Normalization::TrimEnd) {
            trim_end(line)
        } else {
            line
        };
        let l2 = if level.includes(Normalization::TypeDirBackslash) && starts_with(
            trim_start(l1),
            "= note: required because it appears within the type"@,
        ) {
            slashed(l1)
        } else {
            l1
        };
        let l3 = if level.includes(Normalization::AndOthers) {
            and_others(l2)
        } else {
            l2
        };
        if level.includes(Normalization::StripLongTypeNameFiles) && long_type_note(l3) {
            (None, count)
        } else {
            let (r, count2) = if level.includes(Normalization::AndOthersVerbose) {
                truncate_list(lines, index, l3, indent, count)
            } else {
                (Some(l3), count)
            };
            match r {
                Some(l4) => (Some(placeholders(l4, ctx)), count2),
                None => (None, count2),
            }
        }
    }
}

/// The state carried from one line to the next within a pass.
#[derive(Clone, Copy, Debug, PartialEq, Eq, Structural)]
pub struct Filter {
    /// How many of the next lines lose their leading line numbers.
    pub hide_numbers: usize,
    /// How many types of an open "types implement trait" list were seen.
    pub other_types: Option<usize>,
}

/// The output for line `index` of `lines`, if any, and the state for the
/// next line.
pub open spec fn filter_line(
    lines: Seq<Seq<char>>,
    index: int,
    level: Normalization,
    ctx: Context,
    st: Filter,
) -> (Option<Seq<char>>, Filter) {
    let raw = lines[index];
    let line = if st.hide_numbers > 0 {
        hide_leading(raw)
    } else {
        raw
    };
    let hn: usize = if st.hide_numbers > 0 {
        (st.hide_numbers - 1) as usize
    } else {
        0
    };
    let indent = indent_of(line);
    let ts = trim_start(line);
    let arrow = starts_with(ts, "--> "@);
    if arrow || starts_with(ts, "::: "@) {
        let (l, hide) = rewrite_location(line, indent, arrow, level, ctx);
        let hn2: usize = if hide {
            (1 + continuation_count(lines, index + 1)) as usize
        } else {
            hn
        };
        (Some(l), Filter { hide_numbers: hn2, other_types: st.other_types })
    } else {
        let (r, count) = filter_plain(lines, index, line, indent, level, ctx, st.other_types);
        (r, Filter { hide_numbers: hn, other_types: count })
    }
}

fn filter_plain_exec(
    lines: &Vec<Vec<char>>,
    index: usize,
    line: Vec<char>,
    indent: usize,
    level: Normalization,
    ctx: &Context,
    count: Option<usize>,
) -> (r: (Option<Vec<char>>, Option<usize>))
    requires
        index < lines@.len(),
    ensures
        (opt_seq(r.0), r.1) == filter_plain(
            views(lines@),
            index as int,
            line@,
            indent as int,
            level,
            *ctx,
            count,
        ),
{
    let ts = trim_start_exec(&line);
    if dropped_exec(&line, &ts, level) {
        return (None, count);
    }
    let l1 = if level.at_least(Normalization::TrimEnd) {
        trim_end_exec(&line)
    } else {
        line
    };
    let l2 = if level.at_least(Normalization::TypeDirBackslash) && starts_with_exec(
        &trim_start_exec(&l1),
        &chars_of("= note: required because it appears within the type"),
    ) {
        slash_all(&l1)
    } else {
        l1
    };
    let l3 = if level.at_least(Normalization::AndOthers) {
        and_others_exec(&l2)
    } else {
        l2
    };
    if level.at_least(Normalization::StripLongTypeNameFiles) && long_type_note_exec(&l3) {
        return (None, count);
    }
    let (r, count2) = if level.at_least(Normalization::AndOthersVerbose) {
        truncate_list_exec(lines, index, l3, indent, count)
    } else {
        (Some(l3), count)
    };
    match r {
        Some(l4) => (Some(placeholders_exec(&l4, ctx)), count2),
        None => (None, count2),
    }
}

impl Filter {
    pub fn new() -> (r: Filter)
        ensures
            r == (Filter { hide_numbers: 0, other_types: None }),
    {
        Filter { hide_numbers: 0, other_types: None }
    }

    /// Filters line `index` of `lines`, and updates the carried state.
    pub fn apply(
        &mut self,
        lines: &Vec<Vec<char>>,
        index: usize,
        level: Normalization,
        ctx: &Context,
    ) -> (r: Option<Vec<char>>)
        requires
            ctx.wf(),
            index < lines@.len(),
        ensures
            (opt_seq(r), *final(self)) == filter_line(
                views(lines@),
                index as int,
                level,
                *ctx,
                *old(self),
            ),
    {
        let _nl = lines.len();
        let mut line = slice(&lines[index], 0, lines[index].len());
        assert(line@ =~= views(lines@)[index as int]);
        let hn: usize = if self.hide_numbers > 0 {
            hide_leading_numbers(&mut line);
            self.hide_numbers - 1
        } else {
            0
        };
        let indent = indent_exec(&line);
        let ts = trim_start_exec(&line);
        let arrow = starts_with_exec(&ts, &chars_of("--> "));
        if arrow || starts_with_exec(&ts, &chars_of("::: ")) {
            proof {
                reveal_strlit("--> ");
                reveal_strlit("::: ");
                lemma_ws_end(line@, 0);
            }
            let (l, hide) = rewrite_location_exec(&line, indent, arrow, level, ctx);
            let hn2: usize = if hide {
                1 + continuation_count_exec(lines, index + 1)
            } else {
                hn
            };
            self.hide_numbers = hn2;
            Some(l)
        } else {
            let (r, count) = filter_plain_exec(
                lines,
                index,
                line,
                indent,
                level,
                ctx,
                self.other_types,
            );
            self.hide_numbers = hn;
            self.other_types = count;
            r
        }
    }
}

/// `l` appended as one more line: a newline follows unless the text already
/// ends in a blank line.
pub open spec fn push_line(out: Seq<char>, l: Seq<char>) -> Seq<char> {
    let o = out + l;
    if ends_with(o, "\n\n"@) {
        o
    } else {
        o.push('\n')
    }
}

/// The text that a pass at `level` produces from the lines `i..`, after `out`.
pub open spec fn collect_acc(
    lines: Seq<Seq<char>>,
    i: int,
    level: Normalization,
    ctx: Context,
    st: Filter,
    out: Seq<char>,
) -> Seq<char>
    decreases lines.len() - i,
{
    if i < 0 || i >= lines.len() {
        out
    } else {
        let (r, st2) = filter_line(lines, i, level, ctx, st);
        let out2 = match r {
            Some(l) => push_line(out, l),
            None => out,
        };
        collect_acc(lines, i + 1, level, ctx, st2, out2)
    }
}

pub open spec fn filtered(lines: Seq<Seq<char>>, level: Normalization, ctx: Context) -> Seq<char> {
    collect_acc(lines, 0, level, ctx, Filter { hide_numbers: 0, other_types: None }, Seq::empty())
}

/// Runs the filter over every line, at one level.
pub fn filter_lines(lines: &Vec<Vec<char>>, level: Normalization, ctx: &Context) -> (r: Vec<char>)
    requires
        ctx.wf(),
    ensures
        r@ == filtered(views(lines@), level, *ctx),
{
    let mut out: Vec<char> = Vec::new();
    let mut filter = Filter::new();
    let nl = chars_of("\n\n");
    let mut i: usize = 0;
    assert(out@ =~= Seq::<char>::empty());
    while i < lines.len()
        invariant
            ctx.wf(),
            i <= lines@.len(),
            nl@ == "\n\n"@,
            collect_acc(views(lines@), i as int, level, *ctx, filter, out@) == filtered(
                views(lines@),
                level,
                *ctx,
            ),
        decreases lines@.len() - i,
    {
        match filter.apply(lines, i, level, ctx) {
            Some(l) => {
                push_all(&mut out, &l);
                if !ends_with_exec(&out, &nl) {
                    out.push('\n');
                }
            },
            None => {},
        }
        i += 1;
    }
    out
}

} // verus!
