//! Character-level text utilities shared by the normalization passes.
//!
//! Text is handled as a vector of `char`s; the spec functions here describe
//! each operation over `Seq<char>`.
use vstd::prelude::*;
use vstd::std_specs::iter::IteratorSpec;

verus! {

/// The characters of `s`, in order.
pub fn chars_of(s: &str) -> (r: Vec<char>)
    ensures
        r@ == s@,
{
    broadcast use vstd::string::group_string_axioms;

    let mut it = s.chars();
    let mut r: Vec<char> = Vec::new();
    assert(r@ + it.remaining() =~= s@);
    loop
        invariant
            r@ + it.remaining() == s@,
            it.decrease() is Some,
        decreases it.decrease()->0,
    {
        match it.next() {
            Some(c) => {
                r.push(c);
                assert(r@ + it.remaining() =~= s@);
            },
            None => {
                assert(r@ =~= s@);
                return r;
            },
        }
    }
}

/// Relies on `String::from_iter` over `&char`: the string made of exactly
/// these characters.
#[verifier::external_body]
pub(crate) fn string_of(v: &Vec<char>) -> (r: String)
    ensures
        r@ == v@,
{
    String::from_iter(v.iter())
}

/// Unicode `White_Space`, which is what `char::is_whitespace` tests.
pub open spec fn is_ws(c: char) -> bool {
    let u = c as u32;
    u == 0x20 || (0x09 <= u && u <= 0x0D) || u == 0x85 || u == 0xA0 || u == 0x1680
        || (0x2000 <= u && u <= 0x200A) || u == 0x2028 || u == 0x2029 || u == 0x202F
        || u == 0x205F || u == 0x3000
}

pub fn is_whitespace(c: char) -> (r: bool)
    ensures
        r == is_ws(c),
{
    let u = c as u32;
    u == 0x20 || (0x09 <= u && u <= 0x0D) || u == 0x85 || u == 0xA0 || u == 0x1680
        || (0x2000 <= u && u <= 0x200A) || u == 0x2028 || u == 0x2029 || u == 0x202F
        || u == 0x205F || u == 0x3000
}

pub open spec fn is_digit(c: char) -> bool {
    0x30 <= (c as u32) && (c as u32) <= 0x39
}

pub open spec fn is_lower_hex(c: char) -> bool {
    is_digit(c) || (0x61 <= (c as u32) && (c as u32) <= 0x66)
}

pub open spec fn is_alnum(c: char) -> bool {
    let u = c as u32;
    is_digit(c) || (0x41 <= u && u <= 0x5A) || (0x61 <= u && u <= 0x7A)
}

pub fn is_ascii_digit(c: char) -> (r: bool)
    ensures
        r == is_digit(c),
{
    0x30 <= (c as u32) && (c as u32) <= 0x39
}

pub fn is_ascii_alphanumeric(c: char) -> (r: bool)
    ensures
        r == is_alnum(c),
{
    let u = c as u32;
    (0x30 <= u && u <= 0x39) || (0x41 <= u && u <= 0x5A) || (0x61 <= u && u <= 0x7A)
}

/// ASCII lowercase of one character; every other character is kept.
pub open spec fn lower_char(c: char) -> char {
    if 0x41 <= (c as u32) && (c as u32) <= 0x5A {
        ((c as u32) + 32) as char
    } else {
        c
    }
}

pub fn to_ascii_lower(c: char) -> (r: char)
    ensures
        r == lower_char(c),
{
    if 0x41 <= (c as u32) && (c as u32) <= 0x5A {
        ((c as u8) + 32) as char
    } else {
        c
    }
}


pub open spec fn slash_char(c: char) -> char {
    if c == '\\' {
        '/'
    } else {
        c
    }
}

/// The case- and separator-insensitive form of a character, as paths are compared.
pub open spec fn fold_char(c: char) -> char {
    slash_char(lower_char(c))
}

pub open spec fn slashed(s: Seq<char>) -> Seq<char> {
    s.map_values(|c: char| slash_char(c))
}

pub open spec fn folded(s: Seq<char>) -> Seq<char> {
    s.map_values(|c: char| fold_char(c))
}

/// Every backslash replaced by a forward slash.
pub fn slash_all(s: &Vec<char>) -> (r: Vec<char>)
    ensures
        r@ == slashed(s@),
{
    let mut r: Vec<char> = Vec::new();
    let mut i: usize = 0;
    while i < s.len()
        invariant
            i <= s@.len(),
            r@ == slashed(s@.subrange(0, i as int)),
        decreases s@.len() - i,
    {
        let c = s[i];
        r.push(if c == '\\' { '/' } else { c });
        i += 1;
        assert(slashed(s@.subrange(0, i as int)) =~= r@);
    }
    assert(s@.subrange(0, i as int) =~= s@);
    r
}

/// ASCII lowercase with every backslash replaced by a forward slash.
pub fn fold_all(s: &Vec<char>) -> (r: Vec<char>)
    ensures
        r@ == folded(s@),
{
    let mut r: Vec<char> = Vec::new();
    let mut i: usize = 0;
    while i < s.len()
        invariant
            i <= s@.len(),
            r@ == folded(s@.subrange(0, i as int)),
        decreases s@.len() - i,
    {
        let c = to_ascii_lower(s[i]);
        r.push(if c == '\\' { '/' } else { c });
        i += 1;
        assert(folded(s@.subrange(0, i as int)) =~= r@);
    }
    assert(s@.subrange(0, i as int) =~= s@);
    r
}

pub open spec fn opt_int(o: Option<usize>) -> Option<int> {
    match o {
        Some(k) => Some(k as int),
        None => None,
    }
}

/// `p` occurs in `s` at position `i`.
pub open spec fn matches_at(s: Seq<char>, i: int, p: Seq<char>) -> bool {
    0 <= i && i + p.len() <= s.len() && s.subrange(i, i + p.len()) == p
}

pub open spec fn starts_with(s: Seq<char>, p: Seq<char>) -> bool {
    matches_at(s, 0, p)
}

pub open spec fn ends_with(s: Seq<char>, p: Seq<char>) -> bool {
    matches_at(s, s.len() - p.len(), p)
}

/// The first position at or after `i` where `p` occurs in `s`.
pub open spec fn find_from(s: Seq<char>, p: Seq<char>, i: int) -> Option<int>
    decreases s.len() + 1 - i,
{
    if i < 0 || i + p.len() > s.len() {
        None
    } else if matches_at(s, i, p) {
        Some(i)
    } else {
        find_from(s, p, i + 1)
    }
}

pub open spec fn find(s: Seq<char>, p: Seq<char>) -> Option<int> {
    find_from(s, p, 0)
}

pub proof fn lemma_find_from(s: Seq<char>, p: Seq<char>, i: int)
    ensures
        match find_from(s, p, i) {
            Some(k) => i <= k && matches_at(s, k, p),
            None => true,
        },
    decreases s.len() + 1 - i,
{
    if !(i < 0 || i + p.len() > s.len()) && !matches_at(s, i, p) {
        lemma_find_from(s, p, i + 1);
    }
}

pub fn matches_at_exec(s: &Vec<char>, i: usize, p: &Vec<char>) -> (r: bool)
    ensures
        r == matches_at(s@, i as int, p@),
{
    if i > s.len() || p.len() > s.len() - i {
        return false;
    }
    let mut k: usize = 0;
    while k < p.len()
        invariant
            i + p@.len() <= s@.len(),
            s@.len() <= usize::MAX,
            k <= p@.len(),
            forall|j: int| 0 <= j < k ==> s@[i + j] == p@[j],
        decreases p@.len() - k,
    {
        if s[i + k] != p[k] {
            assert(s@.subrange(i as int, i + p@.len())[k as int] != p@[k as int]);
            return false;
        }
        k += 1;
    }
    assert(s@.subrange(i as int, i + p@.len()) =~= p@);
    true
}

pub fn equals(a: &Vec<char>, b: &Vec<char>) -> (r: bool)
    ensures
        r == (a@ == b@),
{
    let r = a.len() == b.len() && starts_with_exec(a, b);
    proof {
        if a@.len() == b@.len() {
            assert(a@.subrange(0, b@.len() as int) =~= a@);
        }
    }
    r
}

pub fn starts_with_exec(s: &Vec<char>, p: &Vec<char>) -> (r: bool)
    ensures
        r == starts_with(s@, p@),
{
    matches_at_exec(s, 0, p)
}

pub fn ends_with_exec(s: &Vec<char>, p: &Vec<char>) -> (r: bool)
    ensures
        r == ends_with(s@, p@),
{
    if p.len() > s.len() {
        false
    } else {
        matches_at_exec(s, s.len() - p.len(), p)
    }
}

pub fn find_from_exec(s: &Vec<char>, p: &Vec<char>, start: usize) -> (r: Option<usize>)
    ensures
        opt_int(r) == find_from(s@, p@, start as int),
{
    let mut i = start;
    loop
        invariant
            start <= i,
            find_from(s@, p@, i as int) == find_from(s@, p@, start as int),
        decreases s@.len() + 1 - i,
    {
        if i > s.len() || p.len() > s.len() - i {
            return None;
        }
        if matches_at_exec(s, i, p) {
            return Some(i);
        }
        if i == s.len() {
            assert(find_from(s@, p@, i + 1) is None);
            return None;
        }
        i += 1;
    }
}

pub fn find_exec(s: &Vec<char>, p: &Vec<char>) -> (r: Option<usize>)
    ensures
        opt_int(r) == find(s@, p@),
{
    find_from_exec(s, p, 0)
}


/// The characters `s[a..b]`.
pub fn slice(s: &Vec<char>, a: usize, b: usize) -> (r: Vec<char>)
    requires
        a <= b <= s@.len(),
    ensures
        r@ == s@.subrange(a as int, b as int),
{
    let mut r: Vec<char> = Vec::new();
    let mut i = a;
    while i < b
        invariant
            a <= i <= b,
            b <= s@.len(),
            r@ == s@.subrange(a as int, i as int),
        decreases b - i,
    {
        r.push(s[i]);
        i += 1;
        assert(r@ =~= s@.subrange(a as int, i as int));
    }
    r
}

/// Appends the characters of `x` to `out`.
pub fn push_all(out: &mut Vec<char>, x: &Vec<char>)
    ensures
        final(out)@ == old(out)@ + x@,
{
    let mut i: usize = 0;
    while i < x.len()
        invariant
            i <= x@.len(),
            out@ == old(out)@ + x@.subrange(0, i as int),
        decreases x@.len() - i,
    {
        out.push(x[i]);
        i += 1;
        assert(out@ =~= old(out)@ + x@.subrange(0, i as int));
    }
    assert(x@.subrange(0, i as int) =~= x@);
}

/// The number of whitespace characters that start `s` from position `i` on.
pub open spec fn ws_end(s: Seq<char>, i: int) -> int
    decreases s.len() - i,
{
    if 0 <= i < s.len() && is_ws(s[i]) {
        ws_end(s, i + 1)
    } else {
        i
    }
}

/// The width of the leading whitespace of `s`, which `str::trim_start` removes.
pub open spec fn indent_of(s: Seq<char>) -> int {
    ws_end(s, 0)
}

pub proof fn lemma_ws_end(s: Seq<char>, i: int)
    requires
        0 <= i <= s.len(),
    ensures
        i <= ws_end(s, i) <= s.len(),
        forall|k: int| i <= k < ws_end(s, i) ==> is_ws(#[trigger] s[k]),
        ws_end(s, i) < s.len() ==> !is_ws(s[ws_end(s, i)]),
    decreases s.len() - i,
{
    if i < s.len() && is_ws(s[i]) {
        lemma_ws_end(s, i + 1);
    }
}

pub fn indent_exec(s: &Vec<char>) -> (r: usize)
    ensures
        r == indent_of(s@),
        r <= s@.len(),
{
    proof {
        lemma_ws_end(s@, 0);
    }
    let mut i: usize = 0;
    while i < s.len() && is_whitespace(s[i])
        invariant
            i <= s@.len(),
            ws_end(s@, i as int) == indent_of(s@),
        decreases s@.len() - i,
    {
        i += 1;
    }
    i
}

/// `s` without its leading whitespace, as `str::trim_start` gives it.
pub open spec fn trim_start(s: Seq<char>) -> Seq<char> {
    s.subrange(indent_of(s), s.len() as int)
}

pub fn trim_start_exec(s: &Vec<char>) -> (r: Vec<char>)
    ensures
        r@ == trim_start(s@),
{
    let i = indent_exec(s);
    proof {
        lemma_ws_end(s@, 0);
    }
    slice(s, i, s.len())
}

/// The position after the last non-whitespace character of `s[..j]`.
pub open spec fn ws_start(s: Seq<char>, j: int) -> int
    decreases j,
{
    if 0 < j <= s.len() && is_ws(s[j - 1]) {
        ws_start(s, j - 1)
    } else {
        j
    }
}

pub proof fn lemma_ws_start(s: Seq<char>, j: int)
    requires
        0 <= j <= s.len(),
    ensures
        0 <= ws_start(s, j) <= j,
    decreases j,
{
    if 0 < j && is_ws(s[j - 1]) {
        lemma_ws_start(s, j - 1);
    }
}

/// `s` without its trailing whitespace, as `str::trim_end` gives it.
pub open spec fn trim_end(s: Seq<char>) -> Seq<char> {
    s.subrange(0, ws_start(s, s.len() as int))
}

pub fn trim_end_exec(s: &Vec<char>) -> (r: Vec<char>)
    ensures
        r@ == trim_end(s@),
{
    proof {
        lemma_ws_start(s@, s@.len() as int);
    }
    let mut j: usize = s.len();
    while j > 0 && is_whitespace(s[j - 1])
        invariant
            j <= s@.len(),
            ws_start(s@, j as int) == ws_start(s@, s@.len() as int),
        decreases j,
    {
        j -= 1;
    }
    slice(s, 0, j)
}

/// The lines of `s` as `str::lines` splits them: at each `\n`, with one `\r`
/// before it dropped, and with no empty line after a final `\n`.
pub open spec fn lines_acc(
    s: Seq<char>,
    i: int,
    cur: Seq<char>,
    acc: Seq<Seq<char>>,
) -> Seq<Seq<char>>
    decreases s.len() - i,
{
    if i < 0 || i >= s.len() {
        if cur.len() > 0 {
            acc.push(cur)
        } else {
            acc
        }
    } else if s[i] == '\n' {
        let line = if cur.len() > 0 && cur.last() == '\r' {
            cur.drop_last()
        } else {
            cur
        };
        lines_acc(s, i + 1, Seq::empty(), acc.push(line))
    } else {
        lines_acc(s, i + 1, cur.push(s[i]), acc)
    }
}

pub open spec fn lines_of(s: Seq<char>) -> Seq<Seq<char>> {
    lines_acc(s, 0, Seq::empty(), Seq::empty())
}

/// The character sequences held by a vector of lines.
pub open spec fn views(v: Seq<Vec<char>>) -> Seq<Seq<char>> {
    v.map_values(|l: Vec<char>| l@)
}

pub fn lines_exec(s: &Vec<char>) -> (r: Vec<Vec<char>>)
    ensures
        views(r@) == lines_of(s@),
{
    let mut acc: Vec<Vec<char>> = Vec::new();
    let mut cur: Vec<char> = Vec::new();
    let mut i: usize = 0;
    assert(views(acc@) =~= Seq::<Seq<char>>::empty());
    assert(cur@ =~= Seq::<char>::empty());
    while i < s.len()
        invariant
            i <= s@.len(),
            lines_acc(s@, i as int, cur@, views(acc@)) == lines_of(s@),
        decreases s@.len() - i,
    {
        let c = s[i];
        if c == '\n' {
            let n = cur.len();
            if n > 0 && cur[n - 1] == '\r' {
                cur.pop();
            }
            let ghost prev = views(acc@);
            let ghost lv = cur@;
            acc.push(cur);
            assert(views(acc@) =~= prev.push(lv));
            cur = Vec::new();
            assert(cur@ =~= Seq::<char>::empty());
        } else {
            cur.push(c);
        }
        i += 1;
    }
    if cur.len() > 0 {
        let ghost prev = views(acc@);
        let ghost lv = cur@;
        acc.push(cur);
        assert(views(acc@) =~= prev.push(lv));
    }
    acc
}


/// `s[i..]` with each occurrence of the non-empty `p`, found from left to
/// right without overlap, replaced by `r`, appended to `acc`.
pub open spec fn replace_acc(
    s: Seq<char>,
    p: Seq<char>,
    r: Seq<char>,
    i: int,
    acc: Seq<char>,
) -> Seq<char>
    decreases s.len() - i,
{
    if i < 0 || i >= s.len() {
        acc
    } else if p.len() > 0 && matches_at(s, i, p) {
        replace_acc(s, p, r, i + p.len(), acc + r)
    } else {
        replace_acc(s, p, r, i + 1, acc.push(s[i]))
    }
}

/// What `str::replace` gives for a non-empty pattern.
pub open spec fn replace(s: Seq<char>, p: Seq<char>, r: Seq<char>) -> Seq<char> {
    replace_acc(s, p, r, 0, Seq::empty())
}

pub fn replace_exec(s: &Vec<char>, p: &Vec<char>, r: &Vec<char>) -> (out: Vec<char>)
    ensures
        out@ == replace(s@, p@, r@),
{
    let mut out: Vec<char> = Vec::new();
    let mut i: usize = 0;
    assert(out@ =~= Seq::<char>::empty());
    while i < s.len()
        invariant
            i <= s@.len(),
            replace_acc(s@, p@, r@, i as int, out@) == replace(s@, p@, r@),
        decreases s@.len() - i,
    {
        if p.len() > 0 && matches_at_exec(s, i, p) {
            push_all(&mut out, r);
            i += p.len();
        } else {
            out.push(s[i]);
            i += 1;
        }
    }
    out
}

/// The position of the last `/` or `\` in `s[..j]`.
pub open spec fn last_sep(s: Seq<char>, j: int) -> Option<int>
    decreases j,
{
    if j <= 0 || j > s.len() {
        None
    } else if s[j - 1] == '/' || s[j - 1] == '\\' {
        Some(j - 1)
    } else {
        last_sep(s, j - 1)
    }
}

pub proof fn lemma_last_sep(s: Seq<char>, j: int)
    ensures
        match last_sep(s, j) {
            Some(k) => 0 <= k < j <= s.len() && (s[k] == '/' || s[k] == '\\'),
            None => true,
        },
    decreases j,
{
    if !(j <= 0 || j > s.len()) && !(s[j - 1] == '/' || s[j - 1] == '\\') {
        lemma_last_sep(s, j - 1);
    }
}

pub fn last_sep_exec(s: &Vec<char>) -> (r: Option<usize>)
    ensures
        opt_int(r) == last_sep(s@, s@.len() as int),
{
    let mut j = s.len();
    while j > 0
        invariant
            j <= s@.len(),
            last_sep(s@, j as int) == last_sep(s@, s@.len() as int),
        decreases j,
    {
        if s[j - 1] == '/' || s[j - 1] == '\\' {
            return Some(j - 1);
        }
        j -= 1;
    }
    None
}

/// Every character of `s[a..b]` is a lowercase hexadecimal digit.
pub open spec fn all_hex(s: Seq<char>, a: int, b: int) -> bool {
    forall|k: int| a <= k < b ==> is_lower_hex(#[trigger] s[k])
}

pub fn all_hex_exec(s: &Vec<char>, a: usize, b: usize) -> (r: bool)
    requires
        a <= b <= s@.len(),
    ensures
        r == all_hex(s@, a as int, b as int),
{
    let mut k = a;
    while k < b
        invariant
            a <= k <= b,
            b <= s@.len(),
            all_hex(s@, a as int, k as int),
        decreases b - k,
    {
        let u = s[k] as u32;
        if !((0x30 <= u && u <= 0x39) || (0x61 <= u && u <= 0x66)) {
            return false;
        }
        k += 1;
    }
    true
}

/// The end of the run of ASCII digits that starts at `i`.
pub open spec fn digit_end(s: Seq<char>, i: int) -> int
    decreases s.len() - i,
{
    if 0 <= i < s.len() && is_digit(s[i]) {
        digit_end(s, i + 1)
    } else {
        i
    }
}

/// The end of the run of spaces that starts at `i`.
pub open spec fn space_end(s: Seq<char>, i: int) -> int
    decreases s.len() - i,
{
    if 0 <= i < s.len() && s[i] == ' ' {
        space_end(s, i + 1)
    } else {
        i
    }
}

pub proof fn lemma_digit_end(s: Seq<char>, i: int)
    requires
        0 <= i <= s.len(),
    ensures
        i <= digit_end(s, i) <= s.len(),
        forall|k: int| i <= k < digit_end(s, i) ==> is_digit(#[trigger] s[k]),
    decreases s.len() - i,
{
    if i < s.len() && is_digit(s[i]) {
        lemma_digit_end(s, i + 1);
    }
}

pub proof fn lemma_space_end(s: Seq<char>, i: int)
    requires
        0 <= i <= s.len(),
    ensures
        i <= space_end(s, i) <= s.len(),
        forall|k: int| i <= k < space_end(s, i) ==> #[trigger] s[k] == ' ',
    decreases s.len() - i,
{
    if i < s.len() && s[i] == ' ' {
        lemma_space_end(s, i + 1);
    }
}

pub fn digit_end_exec(s: &Vec<char>, i: usize) -> (r: usize)
    requires
        i <= s@.len(),
    ensures
        r == digit_end(s@, i as int),
        i <= r <= s@.len(),
{
    proof {
        lemma_digit_end(s@, i as int);
    }
    let mut k = i;
    while k < s.len() && is_ascii_digit(s[k])
        invariant
            i <= k <= s@.len(),
            digit_end(s@, k as int) == digit_end(s@, i as int),
        decreases s@.len() - k,
    {
        k += 1;
    }
    k
}

pub fn space_end_exec(s: &Vec<char>, i: usize) -> (r: usize)
    requires
        i <= s@.len(),
    ensures
        r == space_end(s@, i as int),
        i <= r <= s@.len(),
{
    proof {
        lemma_space_end(s@, i as int);
    }
    let mut k = i;
    while k < s.len() && s[k] == ' '
        invariant
            i <= k <= s@.len(),
            space_end(s@, k as int) == space_end(s@, i as int),
        decreases s@.len() - k,
    {
        k += 1;
    }
    k
}

} // verus!
