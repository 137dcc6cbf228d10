//! Removal of the excess indentation shared by the lines of a diagnostic
//! block, which varies with the length of the paths in it.
use crate::classify::{indented_line_kind, line_kind, IndentedLineKind};
use crate::level::Normalization;
use crate::text::{
    find, find_exec, lemma_find_from, lines_exec, lines_of, matches_at, matches_at_exec,
    push_all, slice, views, chars_of,
};
use vstd::prelude::*;

verus! {

/// `l` with `least` characters removed after its first space (as many as
/// there are, at most).
pub open spec fn cut(l: Seq<char>, least: int) -> Seq<char> {
    match find(l, seq![' ']) {
        Some(sp) => {
            let end = if sp + least <= l.len() {
                sp + least
            } else {
                l.len() as int
            };
            l.subrange(0, sp) + l.subrange(end, l.len() as int)
        },
        None => l,
    }
}

fn cut_exec(l: &Vec<char>, least: usize) -> (r: Vec<char>)
    ensures
        r@ == cut(l@, least as int),
{
    let n = l.len();
    let mut space: Vec<char> = Vec::new();
    space.push(' ');
    assert(space@ =~= seq![' ']);
    proof {
        lemma_find_from(l@, space@, 0);
    }
    match find_exec(l, &space) {
        Some(sp) => {
            let end = if least <= n - sp {
                sp + least
            } else {
                n
            };
            let mut r = slice(l, 0, sp);
            push_all(&mut r, &slice(l, end, n));
            r
        },
        None => slice(l, 0, n),
    }
}

/// The extent of a block from line `j` on: the number of its lines so far,
/// and the least indentation budget of its code lines.
pub open spec fn block_scan(
    lines: Seq<Seq<char>>,
    j: int,
    level: Normalization,
    previous_note: bool,
    count: int,
    least: int,
) -> (int, int)
    decreases lines.len() - j,
{
    if j < 0 || j >= lines.len() {
        (count, least)
    } else {
        let (kind, note) = line_kind(lines[j], previous_note, level);
        match kind {
            IndentedLineKind::Heading => (count, least),
            IndentedLineKind::Code(indent) => block_scan(
                lines,
                j + 1,
                level,
                note,
                count + 1,
                if (indent as int) < least {
                    indent as int
                } else {
                    least
                },
            ),
            IndentedLineKind::Note => block_scan(lines, j + 1, level, note, count + 1, least),
            IndentedLineKind::Other(spaces) => if spaces > 10 {
                block_scan(lines, j + 1, level, note, count + 1, least)
            } else {
                (count, least)
            },
        }
    }
}

pub proof fn lemma_block_scan(
    lines: Seq<Seq<char>>,
    j: int,
    level: Normalization,
    previous_note: bool,
    count: int,
    least: int,
)
    requires
        0 <= j <= lines.len(),
        0 <= least,
    ensures
        count <= block_scan(lines, j, level, previous_note, count, least).0 <= count + lines.len()
            - j,
        0 <= block_scan(lines, j, level, previous_note, count, least).1 <= least,
    decreases lines.len() - j,
{
    if j < lines.len() {
        let (kind, note) = line_kind(lines[j], previous_note, level);
        match kind {
            IndentedLineKind::Heading => {},
            IndentedLineKind::Code(indent) => {
                let l2 = if (indent as int) < least {
                    indent as int
                } else {
                    least
                };
                lemma_block_scan(lines, j + 1, level, note, count + 1, l2);
            },
            IndentedLineKind::Note => {
                lemma_block_scan(lines, j + 1, level, note, count + 1, least);
            },
            IndentedLineKind::Other(spaces) => {
                if spaces > 10 {
                    lemma_block_scan(lines, j + 1, level, note, count + 1, least);
                }
            },
        }
    }
}

/// The `remaining` lines of a block from line `j` on, appended to `out`: code
/// and other lines cut by `least`, headings and notes as they are.
pub open spec fn emit_block(
    lines: Seq<Seq<char>>,
    j: int,
    remaining: int,
    least: int,
    level: Normalization,
    previous_note: bool,
    out: Seq<char>,
) -> Seq<char>
    decreases remaining,
{
    if remaining <= 0 || j < 0 || j >= lines.len() {
        out
    } else {
        let (kind, note) = line_kind(lines[j], previous_note, level);
        let l = match kind {
            IndentedLineKind::Code(_) => cut(lines[j], least),
            IndentedLineKind::Other(_) => cut(lines[j], least),
            _ => lines[j],
        };
        emit_block(lines, j + 1, remaining - 1, least, level, note, out + l.push('\n'))
    }
}

/// A heading followed by a `-->` code line opens a block whose lines are cut.
pub open spec fn unindent_acc(
    lines: Seq<Seq<char>>,
    i: int,
    level: Normalization,
    out: Seq<char>,
) -> Seq<char>
    decreases lines.len() - i,
{
    if i < 0 || i >= lines.len() {
        out
    } else {
        let line = lines[i];
        let out1 = out + line.push('\n');
        if line_kind(line, false, level).0 == IndentedLineKind::Heading && i + 1 < lines.len() {
            let next = lines[i + 1];
            match line_kind(next, false, level).0 {
                IndentedLineKind::Code(indent) => if matches_at(next, indent + 1, "--> "@) {
                    let (count, least) = block_scan(lines, i + 2, level, false, 1, indent as int);
                    if count >= 1 && i + 1 + count <= lines.len() {
                        unindent_acc(
                            lines,
                            i + 1 + count,
                            level,
                            emit_block(lines, i + 1, count, least, level, false, out1),
                        )
                    } else {
                        out1
                    }
                } else {
                    unindent_acc(lines, i + 1, level, out1)
                },
                _ => unindent_acc(lines, i + 1, level, out1),
            }
        } else {
            unindent_acc(lines, i + 1, level, out1)
        }
    }
}

/// The text with the blocks unindented, at the levels that do so.
pub open spec fn unindented(diag: Seq<char>, level: Normalization) -> Seq<char> {
    if !level.includes(Normalization::Unindent) {
        diag
    } else {
        unindent_acc(lines_of(diag), 0, level, Seq::empty())
    }
}


fn block_scan_exec(lines: &Vec<Vec<char>>, from: usize, level: Normalization, least0: usize) -> (r: (
    usize,
    usize,
))
    requires
        1 <= from <= lines@.len(),
    ensures
        (r.0 as int, r.1 as int) == block_scan(views(lines@), from as int, level, false, 1, least0 as int),
{
    let ghost ls = views(lines@);
    let n = lines.len();
    let mut j = from;
    let mut count: usize = 1;
    let mut least = least0;
    let mut note = false;
    while j < n
        invariant
            ls == views(lines@),
            n == lines@.len(),
            1 <= from <= j <= n,
            count == 1 + (j - from),
            block_scan(ls, j as int, level, note, count as int, least as int) == block_scan(
                ls,
                from as int,
                level,
                false,
                1,
                least0 as int,
            ),
        decreases n - j,
    {
        let kind = indented_line_kind(&lines[j], &mut note, level);
        match kind {
            IndentedLineKind::Heading => {
                return (count, least);
            },
            IndentedLineKind::Code(indent) => {
                if indent < least {
                    least = indent;
                }
            },
            IndentedLineKind::Note => {},
            IndentedLineKind::Other(spaces) => {
                if spaces <= 10 {
                    return (count, least);
                }
            },
        }
        count += 1;
        j += 1;
    }
    (count, least)
}

fn emit_block_exec(
    lines: &Vec<Vec<char>>,
    from: usize,
    count: usize,
    least: usize,
    level: Normalization,
    out: &mut Vec<char>,
)
    requires
        from + count <= lines@.len(),
    ensures
        final(out)@ == emit_block(views(lines@), from as int, count as int, least as int, level, false, old(out)@),
{
    let ghost ls = views(lines@);
    let _n = lines.len();
    let mut k: usize = 0;
    let mut note = false;
    while k < count
        invariant
            ls == views(lines@),
            from + count <= lines@.len(),
            lines@.len() <= usize::MAX,
            k <= count,
            emit_block(ls, (from + k) as int, (count - k) as int, least as int, level, note, out@)
                == emit_block(ls, from as int, count as int, least as int, level, false, old(out)@),
        decreases count - k,
    {
        let line = &lines[from + k];
        let kind = indented_line_kind(line, &mut note, level);
        let l = match kind {
            IndentedLineKind::Code(_) => cut_exec(line, least),
            IndentedLineKind::Other(_) => cut_exec(line, least),
            _ => slice(line, 0, line.len()),
        };
        let ghost lv = l@;
        proof {
            assert(lines@[from + k]@ == ls[(from + k) as int]);
            assert(line@.subrange(0, line@.len() as int) =~= line@);
        }
        push_all(out, &l);
        out.push('\n');
        k += 1;
    }
}

/// Cuts the excess indentation of each diagnostic block, at the levels that
/// do so.
pub fn unindent(diag: &Vec<char>, level: Normalization) -> (r: Vec<char>)
    ensures
        r@ == unindented(diag@, level),
{
    if !level.at_least(Normalization::Unindent) {
        return slice(diag, 0, diag.len());
    }
    let lines = lines_exec(diag);
    let ghost ls = views(lines@);
    let n = lines.len();
    let arrow = chars_of("--> ");
    let mut out: Vec<char> = Vec::new();
    let mut i: usize = 0;
    assert(out@ =~= Seq::<char>::empty());
    while i < n
        invariant
            ls == views(lines@),
            ls == lines_of(diag@),
            n == lines@.len(),
            i <= n,
            arrow@ == "--> "@,
            level.includes(Normalization::Unindent),
            unindent_acc(ls, i as int, level, out@) == unindented(diag@, level),
        decreases n - i,
    {
        let line = &lines[i];
        assert(line@ == ls[i as int]);
        push_all(&mut out, line);
        out.push('\n');
        let mut note = false;
        let heading = indented_line_kind(line, &mut note, level);
        let mut advanced = false;
        if heading == IndentedLineKind::Heading && i + 1 < n {
            let next = &lines[i + 1];
            assert(next@ == ls[i + 1]);
            let mut note2 = false;
            match indented_line_kind(next, &mut note2, level) {
                IndentedLineKind::Code(indent) => {
                    if indent < next.len() && matches_at_exec(next, indent + 1, &arrow) {
                        proof {
                            lemma_block_scan(ls, i + 2, level, false, 1, indent as int);
                        }
                        let (count, least) = block_scan_exec(&lines, i + 2, level, indent);
                        emit_block_exec(&lines, i + 1, count, least, level, &mut out);
                        i = i + 1 + count;
                        advanced = true;
                    } else {
                        assert(!matches_at(next@, indent + 1, "--> "@));
                    }
                },
                _ => {},
            }
        }
        if !advanced {
            i += 1;
        }
    }
    out
}

} // verus!
