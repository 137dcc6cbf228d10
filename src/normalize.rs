//! The normalization pipeline: one variant of the compiler output per level,
//! and the matching of a saved snapshot against them.
use crate::context::Context;
use crate::filter::{filter_lines, filtered};
use crate::level::{Normalization, LEVELS};
use crate::text::{
    chars_of, lines_exec, lines_of, replace, replace_exec, string_of, trim_end, trim_end_exec,
};
use crate::unindent::{unindent, unindented};
use vstd::prelude::*;

verus! {

/// `s` without trailing whitespace, ending in one newline unless it is empty.
pub open spec fn trimmed(s: Seq<char>) -> Seq<char> {
    let t = trim_end(s);
    if t.len() > 0 {
        t.push('\n')
    } else {
        t
    }
}

fn trim_chars(s: &Vec<char>) -> (r: Vec<char>)
    ensures
        r@ == trimmed(s@),
{
    let mut t = trim_end_exec(s);
    if t.len() > 0 {
        t.push('\n');
    }
    t
}

/// The output with trailing whitespace removed and a final newline.
pub fn trim(output: &str) -> (r: String)
    ensures
        r@ == trimmed(output@),
{
    string_of(&trim_chars(&chars_of(output)))
}

/// The text that the pass at `level` makes of `text`.
pub open spec fn normalized(text: Seq<char>, level: Normalization, ctx: Context) -> Seq<char> {
    trimmed(unindented(filtered(lines_of(text), level, ctx), level))
}

/// Runs one pass, at `level`.
pub fn apply(text: &Vec<char>, level: Normalization, ctx: &Context) -> (r: Vec<char>)
    requires
        ctx.wf(),
    ensures
        r@ == normalized(text@, level, *ctx),
{
    let lines = lines_exec(text);
    let filtered = filter_lines(&lines, level, ctx);
    let unindented = unindent(&filtered, level);
    trim_chars(&unindented)
}

/// The output with each `\r\n` turned into `\n`.
pub open spec fn unix_newlines(output: Seq<char>) -> Seq<char> {
    replace(output, "\r\n"@, "\n"@)
}

/// The variants of `output`, one per level, in the order of the levels.
pub open spec fn variants_of(output: Seq<char>, ctx: Context) -> Seq<Seq<char>> {
    Seq::new(
        LEVELS as nat,
        |i: int| normalized(unix_newlines(output), Normalization::spec_nth(i), ctx),
    )
}

/// `b` appended to `a`, with a newline between them when both are non-empty.
pub open spec fn joined(a: Seq<char>, b: Seq<char>) -> Seq<char> {
    if a.len() > 0 && b.len() > 0 {
        a + "\n"@ + b
    } else {
        a + b
    }
}

/// One normalized output per level; the last is the preferred one.
pub struct Variations {
    variations: Vec<String>,
}

impl View for Variations {
    type V = Seq<Seq<char>>;

    closed spec fn view(&self) -> Seq<Seq<char>> {
        self.variations@.map_values(|s: String| s@)
    }
}

impl Variations {
    #[verifier::type_invariant]
    spec fn inv(&self) -> bool {
        self.variations@.len() == LEVELS
    }

    /// The most normalized variant, which is what a new snapshot holds.
    pub fn preferred(&self) -> (r: &str)
        ensures
            r@ == self@[LEVELS - 1],
    {
        proof {
            use_type_invariant(self);
        }
        self.variations[LEVELS - 1].as_str()
    }

    /// Whether `candidate` equals any of the variants.
    pub fn any(&self, candidate: &str) -> (r: bool)
        ensures
            r == exists|i: int| 0 <= i < self@.len() && self@[i] == candidate@,
    {
        let c = String::from_str(candidate);
        let mut i: usize = 0;
        while i < self.variations.len()
            invariant
                i <= self.variations@.len(),
                c@ == candidate@,
                forall|k: int| 0 <= k < i ==> self@[k] != candidate@,
            decreases self.variations@.len() - i,
        {
            if self.variations[i] == c {
                assert(self@[i as int] == candidate@);
                return true;
            }
            i += 1;
        }
        false
    }

    /// Appends to each variant the variant of the same level of `other`.
    pub fn concat(&mut self, other: &Self)
        ensures
            final(self)@.len() == old(self)@.len(),
            forall|i: int|
                0 <= i < old(self)@.len() ==> #[trigger] final(self)@[i] == joined(
                    old(self)@[i],
                    other@[i],
                ),
    {
        proof {
            use_type_invariant(&*self);
            use_type_invariant(other);
        }
        let mut out: Vec<String> = Vec::new();
        let mut i: usize = 0;
        while i < LEVELS
            invariant
                i <= LEVELS,
                self.variations@.len() == LEVELS,
                other.variations@.len() == LEVELS,
                out@.len() == i,
                forall|k: int|
                    0 <= k < i ==> #[trigger] out@[k]@ == joined(
                        self.variations@[k]@,
                        other.variations@[k]@,
                    ),
            decreases LEVELS - i,
        {
            let mut s = self.variations[i].clone();
            let o = &other.variations[i];
            if s.as_str().unicode_len() > 0 && o.as_str().unicode_len() > 0 {
                s.append("\n");
            }
            s.append(o.as_str());
            out.push(s);
            i += 1;
        }
        self.variations = out;
    }
}

/// For a compiler output, the set of saved outputs against which it is
/// considered correct: one variant per level.
pub fn diagnostics(output: &str, ctx: &Context) -> (r: Variations)
    requires
        ctx.wf(),
    ensures
        r@ == variants_of(output@, *ctx),
{
    let text = replace_exec(&chars_of(output), &chars_of("\r\n"), &chars_of("\n"));
    let mut variations: Vec<String> = Vec::new();
    let mut i: usize = 0;
    while i < LEVELS
        invariant
            ctx.wf(),
            i <= LEVELS,
            text@ == unix_newlines(output@),
            variations@.len() == i,
            forall|k: int|
                0 <= k < i ==> #[trigger] variations@[k]@ == normalized(
                    text@,
                    Normalization::spec_nth(k),
                    *ctx,
                ),
        decreases LEVELS - i,
    {
        let level = Normalization::nth(i);
        let v = apply(&text, level, ctx);
        variations.push(string_of(&v));
        i += 1;
    }
    let r = Variations { variations };
    assert(r@ =~= variants_of(output@, *ctx));
    r
}

} // verus!
