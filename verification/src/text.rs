//! Text as sequences of characters: trimming, ASCII case, path segments and decimal numbers.
use vstd::prelude::*;

verus! {

/// `String::push` of the standard library: the character goes to the end of the string,
/// which is otherwise unchanged.
pub assume_specification[ String::push ](s: &mut String, c: char)
    ensures
        final(s)@ == old(s)@.push(c),
;

/// Whether a character has the Unicode `White_Space` property.
pub open spec fn is_white_space(c: char) -> bool {
    let n = c as int;
    ||| 0x09 <= n <= 0x0D
    ||| n == 0x20
    ||| n == 0x85
    ||| n == 0xA0
    ||| n == 0x1680
    ||| 0x2000 <= n <= 0x200A
    ||| n == 0x2028
    ||| n == 0x2029
    ||| n == 0x202F
    ||| n == 0x205F
    ||| n == 0x3000
}

/// `s` without its leading white space.
pub open spec fn trim_front(s: Seq<char>) -> Seq<char>
    decreases s.len(),
{
    if s.len() > 0 && is_white_space(s.first()) {
        trim_front(s.drop_first())
    } else {
        s
    }
}

/// `s` without its trailing white space.
pub open spec fn trim_back(s: Seq<char>) -> Seq<char>
    decreases s.len(),
{
    if s.len() > 0 && is_white_space(s.last()) {
        trim_back(s.drop_last())
    } else {
        s
    }
}

/// `s` without its leading and trailing white space.
pub open spec fn trimmed(s: Seq<char>) -> Seq<char> {
    trim_back(trim_front(s))
}

/// The code of a character, with the codes of `A` to `Z` moved to those of `a` to `z`.
pub open spec fn lower_code(c: char) -> int {
    if 'A' <= c <= 'Z' {
        c as int + 32
    } else {
        c as int
    }
}

/// Whether two texts are equal up to the case of their ASCII letters.
pub open spec fn same_ignoring_ascii_case(a: Seq<char>, b: Seq<char>) -> bool {
    &&& a.len() == b.len()
    &&& forall|i: int| 0 <= i < a.len() ==> lower_code(#[trigger] a[i]) == lower_code(b[i])
}

/// Whether a character separates the segments of a path or of a namespaced name.
pub open spec fn is_separator(c: char) -> bool {
    c == '\\' || c == '/' || c == ':'
}

/// What stands after the last separator of `s`; all of `s` if it holds none.
pub open spec fn last_segment(s: Seq<char>) -> Seq<char>
    decreases s.len(),
{
    if s.len() == 0 || is_separator(s.last()) {
        Seq::empty()
    } else {
        last_segment(s.drop_last()).push(s.last())
    }
}

/// The character of one decimal digit.
pub open spec fn digit_char(d: nat) -> char {
    (48 + d) as char
}

/// A number written in decimal, without leading zeros.
pub open spec fn decimal(n: nat) -> Seq<char>
    decreases n,
{
    if n < 10 {
        seq![digit_char(n)]
    } else {
        decimal(n / 10).push(digit_char(n % 10))
    }
}

/// The characters of a string, in order.
pub fn chars_of(s: &str) -> (r: Vec<char>)
    ensures
        r@ == s@,
{
    let mut r: Vec<char> = Vec::new();
    for c in it: s.chars()
        invariant
            it.seq() == s@,
            r@ == it.seq().take(it.index()),
    {
        r.push(c);
        assert(s@.take(it.index() + 1) == s@.take(it.index()).push(c));
    }
    assert(s@.take(s@.len() as int) == s@);
    r
}

/// The string of the given characters.
pub fn string_of(v: &Vec<char>) -> (r: String)
    ensures
        r@ == v@,
{
    let mut r = String::new();
    let mut i: usize = 0;
    while i < v.len()
        invariant
            i <= v.len(),
            r@ == v@.take(i as int),
        decreases v.len() - i,
    {
        r.push(v[i]);
        i = i + 1;
        assert(v@.take(i as int) == v@.take(i - 1).push(v@[i - 1]));
    }
    assert(v@.take(v.len() as int) == v@);
    r
}

/// A copy of the characters from `from` up to `to`.
pub fn copy_range(v: &Vec<char>, from: usize, to: usize) -> (r: Vec<char>)
    requires
        from <= to <= v@.len(),
    ensures
        r@ == v@.subrange(from as int, to as int),
{
    let mut r: Vec<char> = Vec::new();
    let mut i: usize = from;
    while i < to
        invariant
            from <= i <= to <= v@.len(),
            r@ == v@.subrange(from as int, i as int),
        decreases to - i,
    {
        r.push(v[i]);
        i = i + 1;
        assert(v@.subrange(from as int, i as int) == v@.subrange(from as int, i - 1).push(
            v@[i - 1],
        ));
    }
    r
}

/// Appends the characters of `tail`.
pub fn push_text(s: &mut String, tail: &str)
    ensures
        final(s)@ == old(s)@ + tail@,
{
    let ghost start = s@;
    for c in it: tail.chars()
        invariant
            it.seq() == tail@,
            s@ == start + it.seq().take(it.index()),
    {
        s.push(c);
        assert(tail@.take(it.index() + 1) == tail@.take(it.index()).push(c));
    }
    assert(tail@.take(tail@.len() as int) == tail@);
}

/// Tests for the Unicode `White_Space` property.
pub fn white_space(c: char) -> (r: bool)
    ensures
        r == is_white_space(c),
{
    let n: u32 = c as u32;
    (n >= 0x09 && n <= 0x0D) || n == 0x20 || n == 0x85 || n == 0xA0 || n == 0x1680 || (n >= 0x2000
        && n <= 0x200A) || n == 0x2028 || n == 0x2029 || n == 0x202F || n == 0x205F || n == 0x3000
}

/// Removes leading and trailing white space.
pub fn trim(v: &Vec<char>) -> (r: Vec<char>)
    ensures
        r@ == trimmed(v@),
{
    let mut lo: usize = 0;
    assert(v@.skip(0) == v@);
    while lo < v.len() && white_space(v[lo])
        invariant
            lo <= v@.len(),
            trim_front(v@) == trim_front(v@.skip(lo as int)),
        decreases v@.len() - lo,
    {
        assert(v@.skip(lo as int).drop_first() == v@.skip(lo + 1));
        lo = lo + 1;
    }
    let ghost front = v@.skip(lo as int);
    assert(trim_front(v@) == front);
    let mut hi: usize = v.len();
    assert(front.take(hi - lo) == front);
    while hi > lo && white_space(v[hi - 1])
        invariant
            lo <= hi <= v@.len(),
            front == v@.skip(lo as int),
            trim_back(front) == trim_back(front.take(hi - lo)),
        decreases hi,
    {
        assert(front.take(hi - lo).drop_last() == front.take(hi - 1 - lo));
        hi = hi - 1;
    }
    assert(front.take(hi - lo) == v@.subrange(lo as int, hi as int));
    copy_range(v, lo, hi)
}

/// The code of a character after ASCII lower-casing.
fn lowered(c: char) -> (r: u32)
    ensures
        r == lower_code(c),
{
    let n: u32 = c as u32;
    if n >= 65 && n <= 90 {
        n + 32
    } else {
        n
    }
}

/// Compares a text with another one, ignoring the case of ASCII letters.
pub fn equals_ignoring_ascii_case(v: &Vec<char>, other: &str) -> (r: bool)
    ensures
        r == same_ignoring_ascii_case(v@, other@),
{
    let o = chars_of(other);
    if v.len() != o.len() {
        return false;
    }
    let mut i: usize = 0;
    while i < v.len()
        invariant
            i <= v@.len(),
            v@.len() == o@.len(),
            o@ == other@,
            forall|j: int| 0 <= j < i ==> lower_code(#[trigger] v@[j]) == lower_code(o@[j]),
        decreases v@.len() - i,
    {
        if lowered(v[i]) != lowered(o[i]) {
            assert(lower_code(v@[i as int]) != lower_code(o@[i as int]));
            return false;
        }
        i = i + 1;
    }
    true
}

/// Whether a text begins with `prefix`.
pub fn begins_with(v: &Vec<char>, prefix: &str) -> (r: bool)
    ensures
        r == prefix@.is_prefix_of(v@),
{
    let p = chars_of(prefix);
    if v.len() < p.len() {
        return false;
    }
    let mut i: usize = 0;
    while i < p.len()
        invariant
            i <= p@.len() <= v@.len(),
            p@ == prefix@,
            forall|j: int| 0 <= j < i ==> p@[j] == #[trigger] v@[j],
        decreases p@.len() - i,
    {
        if v[i] != p[i] {
            assert(v@.subrange(0, p@.len() as int)[i as int] != p@[i as int]);
            return false;
        }
        i = i + 1;
    }
    assert(p@ == v@.subrange(0, p@.len() as int));
    true
}

/// Tests for a separator of path segments.
fn separator(c: char) -> (r: bool)
    ensures
        r == is_separator(c),
{
    c == '\\' || c == '/' || c == ':'
}

/// What stands after the last separator.
pub fn after_last_separator(v: &Vec<char>) -> (r: Vec<char>)
    ensures
        r@ == last_segment(v@),
{
    let mut lo: usize = v.len();
    assert(v@.take(lo as int) == v@);
    while lo > 0 && !separator(v[lo - 1])
        invariant
            lo <= v@.len(),
            last_segment(v@) == last_segment(v@.take(lo as int)) + v@.skip(lo as int),
        decreases lo,
    {
        assert(v@.take(lo as int).drop_last() == v@.take(lo - 1));
        assert(last_segment(v@.take(lo - 1)).push(v@[lo - 1]) + v@.skip(lo as int)
            == last_segment(v@.take(lo - 1)) + v@.skip(lo - 1));
        lo = lo - 1;
    }
    assert(last_segment(v@.take(lo as int)) == Seq::<char>::empty());
    assert(v@.skip(lo as int) == v@.subrange(lo as int, v@.len() as int));
    copy_range(v, lo, v.len())
}

/// One digit as a character.
fn digit(d: u64) -> (r: char)
    requires
        d < 10,
    ensures
        r == digit_char(d as nat),
{
    let code: u8 = 48 + (d as u8);
    code as char
}

/// Writes a number in decimal.
pub fn decimal_text(n: u64) -> (r: String)
    ensures
        r@ == decimal(n as nat),
    decreases n,
{
    if n < 10 {
        let mut r = String::new();
        r.push(digit(n));
        assert(r@ == seq![digit_char(n as nat)]);
        r
    } else {
        let mut r = decimal_text(n / 10);
        r.push(digit(n % 10));
        r
    }
}

/// What `trim_front` leaves begins with no white space.
proof fn lemma_trim_front(s: Seq<char>)
    ensures
        trim_front(s).len() > 0 ==> !is_white_space(trim_front(s).first()),
    decreases s.len(),
{
    if s.len() > 0 && is_white_space(s.first()) {
        lemma_trim_front(s.drop_first());
    }
}

/// What `trim_back` leaves is a prefix, and ends with no white space.
proof fn lemma_trim_back(s: Seq<char>)
    ensures
        trim_back(s).is_prefix_of(s),
        trim_back(s).len() > 0 ==> !is_white_space(trim_back(s).last()),
    decreases s.len(),
{
    if s.len() > 0 && is_white_space(s.last()) {
        lemma_trim_back(s.drop_last());
        let n = trim_back(s).len() as int;
        assert(s.drop_last().subrange(0, n) == s.subrange(0, n));
    } else {
        assert(s == s.subrange(0, s.len() as int));
    }
}

/// A trimmed text has no white space at either end, and a text with none there is already
/// trimmed.
pub proof fn trimmed_ends(s: Seq<char>)
    ensures
        trimmed(s).len() > 0 ==> !is_white_space(trimmed(s).first()) && !is_white_space(
            trimmed(s).last(),
        ),
        s.len() > 0 && !is_white_space(s.first()) && !is_white_space(s.last()) ==> trimmed(s) == s,
        trimmed(trimmed(s)) == trimmed(s),
{
    lemma_trim_front(s);
    lemma_trim_back(trim_front(s));
    let t = trimmed(s);
    if t.len() > 0 {
        assert(t.first() == trim_front(s).first());
    }
}

/// A text without separators is one segment.
pub proof fn unseparated_is_one_segment(s: Seq<char>)
    requires
        forall|i: int| 0 <= i < s.len() ==> !is_separator(#[trigger] s[i]),
    ensures
        last_segment(s) == s,
    decreases s.len(),
{
    if s.len() > 0 {
        unseparated_is_one_segment(s.drop_last());
        assert(s.drop_last().push(s.last()) == s);
    }
}

} // verus!
