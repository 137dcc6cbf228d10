//! Rewriting of paths and numbers inside diagnostic lines.
use crate::text::{
    digit_end, digit_end_exec, folded, fold_all, is_alnum, is_ascii_alphanumeric,
    is_digit, matches_at, matches_at_exec, push_all, slash_char,
    trim_start, trim_start_exec,
};
use vstd::prelude::*;

verus! {

/// `s` with its leading ASCII digits turned into spaces:
/// `"10 | T: Send,"` becomes `"   | T: Send,"`.
pub open spec fn hide_leading(s: Seq<char>) -> Seq<char> {
    s.map(|k: int, c: char| if k < digit_end(s, 0) { ' ' } else { c })
}

pub fn hide_leading_numbers(line: &mut Vec<char>)
    ensures
        final(line)@ == hide_leading(old(line)@),
{
    let ghost orig = line@;
    let n = digit_end_exec(line, 0);
    let mut i: usize = 0;
    while i < n
        invariant
            n == digit_end(orig, 0),
            n <= orig.len(),
            i <= n,
            line@.len() == orig.len(),
            forall|k: int| 0 <= k < i ==> line@[k] == ' ',
            forall|k: int| i <= k < orig.len() ==> line@[k] == orig[k],
        decreases n - i,
    {
        line.set(i, ' ');
        i += 1;
    }
    assert(line@ =~= hide_leading(orig));
}

/// The start of the run of ASCII digits that ends at `j`.
pub open spec fn digit_start(s: Seq<char>, j: int) -> int
    decreases j,
{
    if 0 < j <= s.len() && is_digit(s[j - 1]) {
        digit_start(s, j - 1)
    } else {
        j
    }
}

pub proof fn lemma_digit_start(s: Seq<char>, j: int)
    requires
        0 <= j <= s.len(),
    ensures
        0 <= digit_start(s, j) <= j,
    decreases j,
{
    if 0 < j && is_digit(s[j - 1]) {
        lemma_digit_start(s, j - 1);
    }
}

/// `s` without up to `n` trailing `:<digits>` groups:
/// `"main.rs:22:29"` becomes `"main.rs"`.
pub open spec fn hide_trailing(s: Seq<char>, n: nat) -> Seq<char>
    decreases n,
{
    if n == 0 {
        s
    } else {
        let d = digit_start(s, s.len() as int);
        if d == s.len() || d == 0 || s[d - 1] != ':' {
            s
        } else {
            hide_trailing(s.subrange(0, d - 1), (n - 1) as nat)
        }
    }
}

pub fn hide_trailing_numbers(line: &mut Vec<char>)
    ensures
        final(line)@ == hide_trailing(old(line)@, 2),
{
    let mut round: usize = 0;
    while round < 2
        invariant
            round <= 2,
            hide_trailing(line@, (2 - round) as nat) == hide_trailing(old(line)@, 2),
        decreases 2 - round,
    {
        let n = line.len();
        let mut d = n;
        proof {
            lemma_digit_start(line@, n as int);
        }
        while d > 0 && crate::text::is_ascii_digit(line[d - 1])
            invariant
                d <= n,
                n == line@.len(),
                digit_start(line@, d as int) == digit_start(line@, n as int),
            decreases d,
        {
            d -= 1;
        }
        if d == n || d == 0 || line[d - 1] != ':' {
            return;
        }
        line.truncate(d - 1);
        assert(line@ =~= old(line)@.subrange(0, 0) + line@);
        round += 1;
    }
}

/// The case-insensitive replacement of `pat` in `line`, from position `i` on,
/// appended to `acc`. `lower` is the folded form of `line`, in which `pat` is
/// searched. A match that directly follows an ASCII letter or digit is not
/// replaced: its first character is copied and the search goes on after it.
/// After a replacement, the path that follows has its backslashes turned into
/// slashes up to the next space or colon (`slashing`).
pub open spec fn replace_ci_acc(
    line: Seq<char>,
    lower: Seq<char>,
    pat: Seq<char>,
    rep: Seq<char>,
    i: int,
    slashing: bool,
    acc: Seq<char>,
) -> Seq<char>
    decreases lower.len() - i,
{
    if i < 0 || i >= line.len() || i >= lower.len() {
        acc
    } else if pat.len() > 0 && matches_at(lower, i, pat) {
        if acc.len() > 0 && is_alnum(acc.last()) {
            replace_ci_acc(line, lower, pat, rep, i + 1, false, acc.push(line[i]))
        } else {
            replace_ci_acc(line, lower, pat, rep, i + pat.len(), true, acc + rep)
        }
    } else {
        let c = line[i];
        if slashing && (c == ' ' || c == ':') {
            replace_ci_acc(line, lower, pat, rep, i + 1, false, acc.push(c))
        } else if slashing {
            replace_ci_acc(line, lower, pat, rep, i + 1, true, acc.push(slash_char(c)))
        } else {
            replace_ci_acc(line, lower, pat, rep, i + 1, false, acc.push(c))
        }
    }
}

/// `pattern` replaced in `line` by `rep`, ignoring ASCII case and the kind of
/// path separator.
pub open spec fn replace_ci(line: Seq<char>, pattern: Seq<char>, rep: Seq<char>) -> Seq<char> {
    replace_ci_acc(line, folded(line), folded(pattern), rep, 0, false, Seq::empty())
}

pub fn replace_case_insensitive(line: &Vec<char>, pattern: &Vec<char>, rep: &Vec<char>) -> (r: Vec<
    char,
>)
    ensures
        r@ == replace_ci(line@, pattern@, rep@),
{
    let lower = fold_all(line);
    let pat = fold_all(pattern);
    let mut out: Vec<char> = Vec::new();
    let mut slashing = false;
    let mut i: usize = 0;
    assert(out@ =~= Seq::<char>::empty());
    while i < line.len()
        invariant
            i <= line@.len(),
            lower@ == folded(line@),
            lower@.len() == line@.len(),
            pat@ == folded(pattern@),
            replace_ci_acc(line@, lower@, pat@, rep@, i as int, slashing, out@) == replace_ci(
                line@,
                pattern@,
                rep@,
            ),
        decreases line@.len() - i,
    {
        if pat.len() > 0 && matches_at_exec(&lower, i, &pat) {
            let n = out.len();
            if n > 0 && is_ascii_alphanumeric(out[n - 1]) {
                out.push(line[i]);
                i += 1;
                slashing = false;
            } else {
                push_all(&mut out, rep);
                i += pat.len();
                slashing = true;
            }
        } else {
            let c = line[i];
            if slashing && (c == ' ' || c == ':') {
                out.push(c);
                slashing = false;
            } else if slashing {
                out.push(if c == '\\' { '/' } else { c });
            } else {
                out.push(c);
            }
            i += 1;
        }
    }
    out
}

/// A line that continues the snippet of the previous one: its first
/// non-space character is a digit, `|` or `.`.
pub open spec fn continues_snippet(line: Seq<char>) -> bool {
    let t = trim_start(line);
    t.len() > 0 && (is_digit(t[0]) || t[0] == '|' || t[0] == '.')
}

/// How many lines from `j` on continue a snippet.
pub open spec fn continuation_count(lines: Seq<Seq<char>>, j: int) -> int
    decreases lines.len() - j,
{
    if 0 <= j < lines.len() && continues_snippet(lines[j]) {
        1 + continuation_count(lines, j + 1)
    } else {
        0
    }
}

pub proof fn lemma_continuation_count(lines: Seq<Seq<char>>, j: int)
    requires
        0 <= j <= lines.len(),
    ensures
        0 <= continuation_count(lines, j) <= lines.len() - j,
    decreases lines.len() - j,
{
    if j < lines.len() && continues_snippet(lines[j]) {
        lemma_continuation_count(lines, j + 1);
    }
}

fn continues_snippet_exec(line: &Vec<char>) -> (r: bool)
    ensures
        r == continues_snippet(line@),
{
    let t = trim_start_exec(line);
    t.len() > 0 && (crate::text::is_ascii_digit(t[0]) || t[0] == '|' || t[0] == '.')
}

pub fn continuation_count_exec(lines: &Vec<Vec<char>>, j: usize) -> (r: usize)
    requires
        j <= lines@.len(),
    ensures
        r as int == continuation_count(crate::text::views(lines@), j as int),
        r as int <= lines@.len() - j,
{
    let ghost ls = crate::text::views(lines@);
    proof {
        lemma_continuation_count(ls, j as int);
    }
    let mut k = j;
    while k < lines.len() && continues_snippet_exec(&lines[k])
        invariant
            ls == crate::text::views(lines@),
            j <= k <= lines@.len(),
            continuation_count(ls, j as int) == (k - j) + continuation_count(ls, k as int),
        decreases lines@.len() - k,
    {
        k += 1;
    }
    k - j
}

} // verus!
