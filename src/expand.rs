//! The expanded list of test cases: one entry per path, each with the name of
//! its binary.
use crate::cases::{Expected, Test};
use crate::text::{chars_of, push_all, string_of};
use vstd::prelude::*;

verus! {

pub open spec fn digit_char(d: nat) -> char {
    ((d + 48) as u32) as char
}

/// The decimal digits of `n`.
pub open spec fn decimal(n: nat) -> Seq<char>
    decreases n,
{
    if n < 10 {
        seq![digit_char(n)]
    } else {
        decimal(n / 10).push(digit_char(n % 10))
    }
}

/// The name of the binary of the `i`-th expanded test: `trybuild` and the
/// index in at least three digits.
pub open spec fn bin_name(i: nat) -> Seq<char> {
    let d = decimal(i);
    let padded = if d.len() >= 3 {
        d
    } else if d.len() == 2 {
        seq!['0'] + d
    } else {
        seq!['0', '0'] + d
    };
    "trybuild"@ + padded
}

fn decimal_exec(n: usize) -> (r: Vec<char>)
    ensures
        r@ == decimal(n as nat),
    decreases n,
{
    if n < 10 {
        let mut v: Vec<char> = Vec::new();
        v.push(((n as u8) + 48) as char);
        assert(v@ =~= seq![digit_char(n as nat)]);
        v
    } else {
        let mut v = decimal_exec(n / 10);
        v.push((((n % 10) as u8) + 48) as char);
        v
    }
}

pub fn bin_name_exec(i: usize) -> (r: String)
    ensures
        r@ == bin_name(i as nat),
{
    let d = decimal_exec(i);
    let mut out = chars_of("trybuild");
    if d.len() < 3 {
        out.push('0');
        if d.len() < 2 {
            out.push('0');
        }
    }
    push_all(&mut out, &d);
    proof {
        if d@.len() == 2 {
            assert(out@ =~= "trybuild"@ + (seq!['0'] + d@));
        } else if d@.len() < 2 {
            assert(out@ =~= "trybuild"@ + (seq!['0', '0'] + d@));
        }
    }
    string_of(&out)
}

/// A test after expansion, with the name of its binary and, for a pattern
/// that could not be expanded, the error.
#[derive(Clone, Debug)]
pub struct ExpandedTest {
    pub name: String,
    pub test: Test,
    pub error: Option<String>,
}

/// Expanded tests, unique by path, in the order in which their paths came.
pub struct ExpandedTestSet {
    vec: Vec<ExpandedTest>,
}

/// What a set entry is made of: name, path, expectation and whether it failed
/// to expand.
pub type Entry = (Seq<char>, Seq<char>, Expected, bool);

pub open spec fn entry_of(e: ExpandedTest) -> Entry {
    (e.name@, e.test.path@, e.test.expected, e.error is Some)
}

pub open spec fn index_of_path(entries: Seq<Entry>, path: Seq<char>) -> Option<int> {
    if exists|i: int| 0 <= i < entries.len() && entries[i].1 == path {
        Some(choose|i: int| 0 <= i < entries.len() && entries[i].1 == path)
    } else {
        None
    }
}

impl View for ExpandedTestSet {
    type V = Seq<Entry>;

    closed spec fn view(&self) -> Seq<Entry> {
        self.vec@.map_values(|e: ExpandedTest| entry_of(e))
    }
}

/// Paths are unique, and each entry is named after its position.
pub open spec fn wf_entries(s: Seq<Entry>) -> bool {
    &&& forall|i: int, j: int| 0 <= i < j < s.len() ==> #[trigger] s[i].1 != #[trigger] s[j].1
    &&& forall|i: int| 0 <= i < s.len() ==> #[trigger] s[i].0 == bin_name(i as nat)
}

impl ExpandedTestSet {
    pub open spec fn wf(&self) -> bool {
        wf_entries(self@)
    }

    pub fn new() -> (r: ExpandedTestSet)
        ensures
            r@ == Seq::<Entry>::empty(),
            r.wf(),
    {
        let r = ExpandedTestSet { vec: Vec::new() };
        assert(r@ =~= Seq::<Entry>::empty());
        r
    }

    /// Adds `test`; a path that is already there only takes the new
    /// expectation.
    pub fn insert(&mut self, test: Test, error: Option<String>)
        requires
            old(self).wf(),
        ensures
            final(self).wf(),
            match index_of_path(old(self)@, test.path@) {
                Some(i) => final(self)@ == old(self)@.update(
                    i,
                    (old(self)@[i].0, old(self)@[i].1, test.expected, old(self)@[i].3),
                ),
                None => final(self)@ == old(self)@.push(
                    (bin_name(old(self)@.len()), test.path@, test.expected, error is Some),
                ),
            },
    {
        let ghost before = self@;
        let n = self.vec.len();
        let mut i: usize = 0;
        while i < n
            invariant
                n == self.vec@.len(),
                self@ == before,
                before == old(self)@,
                wf_entries(before),
                i <= n,
                forall|k: int| 0 <= k < i ==> self@[k].1 != test.path@,
            decreases n - i,
        {
            if self.vec[i].test.path == test.path {
                proof {
                    assert(self@[i as int].1 == test.path@);
                    assert(exists|k: int| 0 <= k < before.len() && before[k].1 == test.path@);
                    let j = choose|j: int| 0 <= j < before.len() && before[j].1 == test.path@;
                    assert(j == i) by {
                        if j != i as int {
                            if j < i {
                                assert(false);
                            } else {
                                assert(before[i as int].1 != before[j].1);
                                assert(false);
                            }
                        }
                    }
                    assert(index_of_path(before, test.path@) == Some(i as int));
                }
                let old_e = &self.vec[i];
                let e = ExpandedTest {
                    name: old_e.name.clone(),
                    test: Test { path: old_e.test.path.clone(), expected: test.expected },
                    error: match &old_e.error {
                        Some(s) => Some(s.clone()),
                        None => None,
                    },
                };
                self.vec.set(i, e);
                assert(self@ =~= before.update(
                    i as int,
                    (before[i as int].0, before[i as int].1, test.expected, before[i as int].3),
                ));
                assert(forall|k: int| 0 <= k < self@.len() ==> self@[k].0 == before[k].0 && self@[k].1 == before[k].1);
                return;
            }
            i += 1;
        }
        let name = bin_name_exec(n);
        self.vec.push(ExpandedTest { name, test, error });
        assert(self@ =~= before.push((bin_name(n as nat), test.path@, test.expected, error is Some)));
    }

    /// The expanded tests, in order.
    pub fn into_vec(self) -> (r: Vec<ExpandedTest>)
        ensures
            r@.map_values(|e: ExpandedTest| entry_of(e)) == self@,
    {
        self.vec
    }
}

} // verus!
