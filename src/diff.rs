//! The summary of a mismatch between a saved snapshot and the actual output.
use vstd::prelude::*;

verus! {

/// A piece of a diff between an old and a new text.
#[derive(Clone, Debug)]
pub enum Chunk {
    /// Text in both.
    Equal(String),
    /// Text only in the old one.
    Delete(String),
    /// Text only in the new one.
    Insert(String),
}

/// A piece of text to display, common to both texts or unique to one.
#[derive(Clone, Debug)]
pub enum Render {
    Common(String),
    Unique(String),
}

/// The old text that a list of chunks describes.
pub open spec fn old_text(chunks: Seq<Chunk>) -> Seq<char>
    decreases chunks.len(),
{
    if chunks.len() == 0 {
        Seq::empty()
    } else {
        old_text(chunks.drop_last()) + match chunks.last() {
            Chunk::Equal(s) => s@,
            Chunk::Delete(s) => s@,
            Chunk::Insert(_) => Seq::empty(),
        }
    }
}

/// The new text that a list of chunks describes.
pub open spec fn new_text(chunks: Seq<Chunk>) -> Seq<char>
    decreases chunks.len(),
{
    if chunks.len() == 0 {
        Seq::empty()
    } else {
        new_text(chunks.drop_last()) + match chunks.last() {
            Chunk::Equal(s) => s@,
            Chunk::Insert(s) => s@,
            Chunk::Delete(_) => Seq::empty(),
        }
    }
}

/// Relies on `dissimilar::diff`: its chunks are consecutive slices of the two
/// texts, the equal and deleted ones making up the first text and the equal
/// and inserted ones the second.
#[verifier::external_body]
fn diff_chunks(expected: &str, actual: &str) -> (r: Vec<Chunk>)
    ensures
        old_text(r@) == expected@,
        new_text(r@) == actual@,
{
    dissimilar::diff(expected, actual).into_iter().map(|chunk| match chunk {
        dissimilar::Chunk::Equal(s) => Chunk::Equal(s.to_owned()),
        dissimilar::Chunk::Delete(s) => Chunk::Delete(s.to_owned()),
        dissimilar::Chunk::Insert(s) => Chunk::Insert(s.to_owned()),
    }).collect()
}

/// The number of characters in the chunks common to both texts.
pub open spec fn common_len(chunks: Seq<Chunk>) -> int
    decreases chunks.len(),
{
    if chunks.len() == 0 {
        0
    } else {
        common_len(chunks.drop_last()) + match chunks.last() {
            Chunk::Equal(s) => s@.len() as int,
            _ => 0,
        }
    }
}

pub proof fn lemma_common_len(chunks: Seq<Chunk>)
    ensures
        0 <= common_len(chunks) <= old_text(chunks).len(),
    decreases chunks.len(),
{
    if chunks.len() > 0 {
        lemma_common_len(chunks.drop_last());
    }
}

/// Whether a diff is worth printing: when the common part is at least four
/// fifths of the longer text, counted in characters.
pub open spec fn worth(chunks: Seq<Chunk>, expected: Seq<char>, actual: Seq<char>) -> bool {
    let bigger = if expected.len() >= actual.len() {
        expected.len()
    } else {
        actual.len()
    };
    5 * common_len(chunks) >= 4 * bigger
}

/// Decides, for the chunks of a diff between `expected` and `actual`, whether
/// the diff is worth printing.
pub fn worth_printing(chunks: &Vec<Chunk>, expected: &str, actual: &str) -> (r: bool)
    requires
        old_text(chunks@) == expected@,
    ensures
        r == worth(chunks@, expected@, actual@),
{
    let e = expected.unicode_len();
    let a = actual.unicode_len();
    let mut common: usize = 0;
    let mut i: usize = 0;
    while i < chunks.len()
        invariant
            i <= chunks@.len(),
            common as int == common_len(chunks@.subrange(0, i as int)),
            old_text(chunks@) == expected@,
            e as int == expected@.len(),
        decreases chunks@.len() - i,
    {
        proof {
            let pre = chunks@.subrange(0, i as int + 1);
            assert(pre.drop_last() =~= chunks@.subrange(0, i as int));
            lemma_common_len(pre);
            lemma_prefix_old_text(chunks@, i as int + 1);
        }
        match &chunks[i] {
            Chunk::Equal(s) => {
                common = common + s.as_str().unicode_len();
            },
            _ => {},
        }
        i += 1;
    }
    assert(chunks@.subrange(0, i as int) =~= chunks@);
    let bigger = if e >= a {
        e
    } else {
        a
    };
    5 * (common as u128) >= 4 * (bigger as u128)
}

/// The old text of a prefix of the chunks is no longer than that of all of them.
pub proof fn lemma_prefix_old_text(chunks: Seq<Chunk>, n: int)
    requires
        0 <= n <= chunks.len(),
    ensures
        old_text(chunks.subrange(0, n)).len() <= old_text(chunks).len(),
    decreases chunks.len() - n,
{
    if n < chunks.len() {
        lemma_prefix_old_text(chunks, n + 1);
        let pre = chunks.subrange(0, n + 1);
        assert(pre.drop_last() =~= chunks.subrange(0, n));
    } else {
        assert(chunks.subrange(0, n) =~= chunks);
    }
}


/// The pieces to show of a diff, for the old text (`old`) or the new one:
/// the common chunks, and the chunks unique to the text shown.
pub open spec fn renders(chunks: Seq<Chunk>, old: bool, new: bool) -> Seq<(bool, Seq<char>)>
    decreases chunks.len(),
{
    if chunks.len() == 0 {
        Seq::empty()
    } else {
        let rest = renders(chunks.drop_last(), old, new);
        match chunks.last() {
            Chunk::Equal(s) => rest.push((true, s@)),
            Chunk::Delete(s) => if old {
                rest.push((false, s@))
            } else {
                rest
            },
            Chunk::Insert(s) => if new {
                rest.push((false, s@))
            } else {
                rest
            },
        }
    }
}

/// A rendered piece as whether it is common, and its text.
pub open spec fn render_view(r: Render) -> (bool, Seq<char>) {
    match r {
        Render::Common(s) => (true, s@),
        Render::Unique(s) => (false, s@),
    }
}

/// A diff between a saved snapshot and the actual output.
pub struct Diff {
    pub worth_printing: bool,
    pub expected: String,
    pub actual: String,
    pub diff: Vec<Chunk>,
}

impl Diff {
    /// The diff from `expected` to `actual`.
    pub fn compute(expected: &str, actual: &str) -> (r: Diff)
        ensures
            r.expected@ == expected@,
            r.actual@ == actual@,
            old_text(r.diff@) == expected@,
            new_text(r.diff@) == actual@,
            r.worth_printing == worth(r.diff@, expected@, actual@),
    {
        let diff = diff_chunks(expected, actual);
        let worth_printing = worth_printing(&diff, expected, actual);
        Diff {
            worth_printing,
            expected: String::from_str(expected),
            actual: String::from_str(actual),
            diff,
        }
    }

    /// The pieces to show for `input`, which is the expected or the actual text.
    pub fn iter(&self, input: &str) -> (r: Vec<Render>)
        ensures
            r@.map_values(|x: Render| render_view(x)) == renders(
                self.diff@,
                input@ == self.expected@,
                input@ == self.actual@,
            ),
    {
        let inp = String::from_str(input);
        let old = inp == self.expected;
        let new = inp == self.actual;
        let mut out: Vec<Render> = Vec::new();
        let mut i: usize = 0;
        assert(out@.map_values(|x: Render| render_view(x)) =~= renders(
            self.diff@.subrange(0, 0),
            old,
            new,
        ));
        while i < self.diff.len()
            invariant
                i <= self.diff@.len(),
                out@.map_values(|x: Render| render_view(x)) == renders(
                    self.diff@.subrange(0, i as int),
                    old,
                    new,
                ),
            decreases self.diff@.len() - i,
        {
            let ghost before = out@.map_values(|x: Render| render_view(x));
            assert(self.diff@.subrange(0, i + 1).drop_last() =~= self.diff@.subrange(0, i as int));
            match &self.diff[i] {
                Chunk::Equal(s) => {
                    out.push(Render::Common(s.clone()));
                },
                Chunk::Delete(s) => {
                    if old {
                        out.push(Render::Unique(s.clone()));
                    }
                },
                Chunk::Insert(s) => {
                    if new {
                        out.push(Render::Unique(s.clone()));
                    }
                },
            }
            assert(out@.map_values(|x: Render| render_view(x)) =~= renders(
                self.diff@.subrange(0, i + 1),
                old,
                new,
            ));
            i += 1;
        }
        assert(self.diff@.subrange(0, i as int) =~= self.diff@);
        out
    }
}

} // verus!
