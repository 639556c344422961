//! What the operations on text are for.
use crate::text::{
    after_last_separator, decimal, decimal_text, equals_ignoring_ascii_case, is_separator,
    is_white_space, last_segment, lower_code, same_ignoring_ascii_case, trim, trim_back,
    trim_front, trimmed, white_space,
};
use vstd::prelude::*;

verus! {

/// The characters with the Unicode `White_Space` property, all twenty-five of them.
pub open spec fn blanks() -> Seq<char> {
    "\t\n\u{b}\u{c}\r \u{85}\u{a0}\u{1680}\u{2000}\u{2001}\u{2002}\u{2003}\u{2004}\u{2005}\u{2006}\u{2007}\u{2008}\u{2009}\u{200a}\u{2028}\u{2029}\u{202f}\u{205f}\u{3000}"@
}

/// Whether all characters of a text are blanks.
pub open spec fn is_blank(s: Seq<char>) -> bool {
    forall|i: int| 0 <= i < s.len() ==> blanks().contains(#[trigger] s[i])
}

/// Whether a text begins and ends with a character that is not a blank, or is empty.
pub open spec fn is_bare(s: Seq<char>) -> bool {
    s.len() > 0 ==> !blanks().contains(s[0]) && !blanks().contains(s[s.len() - 1])
}

/// Whether two texts differ at most in the case of their letters from A to Z.
pub open spec fn same_letters(a: Seq<char>, b: Seq<char>) -> bool {
    &&& a.len() == b.len()
    &&& forall|i: int|
        0 <= i < a.len() ==> {
            ||| #[trigger] a[i] == b[i]
            ||| 'A' <= a[i] <= 'Z' && a[i] as int + 32 == b[i] as int
            ||| 'A' <= b[i] <= 'Z' && b[i] as int + 32 == a[i] as int
        }
}

/// The number that a text of decimal digits stands for.
pub open spec fn number(digits: Seq<char>) -> int
    decreases digits.len(),
{
    if digits.len() == 0 {
        0
    } else {
        10 * number(digits.drop_last()) + (digits.last() as int - '0' as int)
    }
}

/// White space is what the blanks are.
pub(crate) proof fn lemma_blanks(c: char)
    ensures
        is_white_space(c) <==> blanks().contains(c),
{
    reveal_strlit(
        "\t\n\u{b}\u{c}\r \u{85}\u{a0}\u{1680}\u{2000}\u{2001}\u{2002}\u{2003}\u{2004}\u{2005}\u{2006}\u{2007}\u{2008}\u{2009}\u{200a}\u{2028}\u{2029}\u{202f}\u{205f}\u{3000}",
    );
    let n = c as int;
    let k: int = if n <= 0x0D {
        n - 9
    } else if n == 0x20 {
        5
    } else if n == 0x85 {
        6
    } else if n == 0xA0 {
        7
    } else if n == 0x1680 {
        8
    } else if n <= 0x200A {
        n - 0x2000 + 9
    } else if n == 0x2028 {
        20
    } else if n == 0x2029 {
        21
    } else if n == 0x202F {
        22
    } else if n == 0x205F {
        23
    } else {
        24
    };
    if is_white_space(c) {
        assert(blanks()[k] == c);
    }
}

/// A character is white space exactly if it is one of the blanks.
pub proof fn white_space_is_a_blank(c: char, r: bool)
    requires
        call_ensures(white_space, (c,), r),
    ensures
        r == blanks().contains(c),
{
    lemma_blanks(c);
}

/// Blanks in front of a text that begins with none are what is trimmed in front.
proof fn lemma_trim_front_blanks(lead: Seq<char>, rest: Seq<char>)
    requires
        is_blank(lead),
        rest.len() > 0 ==> !is_white_space(rest[0]),
    ensures
        trim_front(lead + rest) == rest,
    decreases lead.len(),
{
    if lead.len() == 0 {
        assert(lead + rest == rest);
    } else {
        lemma_blanks(lead[0]);
        assert((lead + rest).drop_first() == lead.drop_first() + rest);
        lemma_trim_front_blanks(lead.drop_first(), rest);
    }
}

/// Blanks behind a text that ends with none are what is trimmed behind.
proof fn lemma_trim_back_blanks(rest: Seq<char>, trail: Seq<char>)
    requires
        is_blank(trail),
        rest.len() > 0 ==> !is_white_space(rest[rest.len() - 1]),
    ensures
        trim_back(rest + trail) == rest,
    decreases trail.len(),
{
    if trail.len() == 0 {
        assert(rest + trail == rest);
    } else {
        lemma_blanks(trail[trail.len() - 1]);
        assert((rest + trail).drop_last() == rest + trail.drop_last());
        lemma_trim_back_blanks(rest, trail.drop_last());
    }
}

/// A bare text between blanks is the trimmed text.
pub(crate) proof fn lemma_trimmed_parts(lead: Seq<char>, body: Seq<char>, trail: Seq<char>)
    requires
        is_blank(lead),
        is_blank(trail),
        is_bare(body),
    ensures
        trimmed(lead + body + trail) == body,
{
    if body.len() == 0 {
        let all = lead + trail;
        assert(lead + body + trail == all + body);
        lemma_trim_front_blanks(all, body);
        assert(body + Seq::<char>::empty() == body);
        lemma_trim_back_blanks(body, Seq::empty());
    } else {
        lemma_blanks(body[0]);
        lemma_blanks(body[body.len() - 1]);
        assert(lead + body + trail == lead + (body + trail));
        lemma_trim_front_blanks(lead, body + trail);
        lemma_trim_back_blanks(body, trail);
    }
}

/// Trimming takes the blanks at both ends away, all of them, and nothing else.
pub proof fn trimming_removes_outer_blanks(
    lead: Seq<char>,
    body: Seq<char>,
    trail: Seq<char>,
    v: &Vec<char>,
    r: Vec<char>,
)
    requires
        call_ensures(trim, (v,), r),
        v@ == lead + body + trail,
        is_blank(lead),
        is_blank(trail),
        is_bare(body),
    ensures
        r@ == body,
{
    lemma_trimmed_parts(lead, body, trail);
}

/// Every text has a bare text between blanks.
pub proof fn every_text_has_parts(s: Seq<char>) -> (parts: (Seq<char>, Seq<char>, Seq<char>))
    ensures
        s == parts.0 + parts.1 + parts.2,
        is_blank(parts.0),
        is_bare(parts.1),
        is_blank(parts.2),
    decreases s.len(),
{
    let none = Seq::<char>::empty();
    if s.len() == 0 {
        assert(s == none + none + none);
        (none, none, none)
    } else if blanks().contains(s[0]) {
        let rest = every_text_has_parts(s.drop_first());
        let lead = seq![s[0]] + rest.0;
        assert(s == seq![s[0]] + s.drop_first());
        assert(seq![s[0]] + (rest.0 + rest.1 + rest.2) == lead + rest.1 + rest.2);
        (lead, rest.1, rest.2)
    } else if blanks().contains(s[s.len() - 1]) {
        let rest = every_text_has_parts(s.drop_last());
        let trail = rest.2.push(s[s.len() - 1]);
        assert(s == s.drop_last().push(s[s.len() - 1]));
        assert((rest.0 + rest.1 + rest.2).push(s[s.len() - 1]) == rest.0 + rest.1 + trail);
        (rest.0, rest.1, trail)
    } else {
        assert(s == none + s + none);
        (none, s, none)
    }
}

/// Where a text is cut behind its last separator, the last segment is what follows the cut.
pub(crate) proof fn lemma_last_segment_cut(s: Seq<char>, cut: int)
    requires
        0 <= cut <= s.len(),
        cut > 0 ==> is_separator(s[cut - 1]),
        forall|i: int| cut <= i < s.len() ==> !is_separator(#[trigger] s[i]),
    ensures
        last_segment(s) == s.skip(cut),
    decreases s.len(),
{
    if s.len() > cut {
        lemma_last_segment_cut(s.drop_last(), cut);
        assert(s.drop_last().skip(cut).push(s.last()) == s.skip(cut));
    } else {
        assert(s.skip(cut) == Seq::<char>::empty());
    }
}

/// What stands after the last backslash, slash or colon is a suffix without any of them, and is
/// all of the text or follows one of them.
pub proof fn last_segment_follows_a_separator(v: &Vec<char>, cut: int, r: Vec<char>)
    requires
        call_ensures(after_last_separator, (v,), r),
        0 <= cut <= v@.len(),
        cut == 0 || v@[cut - 1] == '\\' || v@[cut - 1] == '/' || v@[cut - 1] == ':',
        forall|i: int|
            cut <= i < v@.len() ==> #[trigger] v@[i] != '\\' && v@[i] != '/' && v@[i] != ':',
    ensures
        r@ == v@.skip(cut),
{
    lemma_last_segment_cut(v@, cut);
}

/// Texts are the same up to ASCII case exactly if they differ at most in the case of letters.
pub(crate) proof fn lemma_same_letters(a: Seq<char>, b: Seq<char>)
    ensures
        same_ignoring_ascii_case(a, b) <==> same_letters(a, b),
{
    if same_ignoring_ascii_case(a, b) {
        assert forall|i: int| 0 <= i < a.len() implies {
            ||| #[trigger] a[i] == b[i]
            ||| 'A' <= a[i] <= 'Z' && a[i] as int + 32 == b[i] as int
            ||| 'A' <= b[i] <= 'Z' && b[i] as int + 32 == a[i] as int
        } by {
            assert(lower_code(a[i]) == lower_code(b[i]));
        }
    }
    if same_letters(a, b) {
        assert forall|i: int| 0 <= i < a.len() implies lower_code(#[trigger] a[i]) == lower_code(
            b[i],
        ) by {
            assert(a[i] == a[i]);
        }
    }
}

/// The comparison holds of texts that differ at most in the case of their letters from A to Z.
pub proof fn comparison_ignores_letter_case(v: &Vec<char>, other: &str, r: bool)
    requires
        call_ensures(equals_ignoring_ascii_case, (v, other), r),
    ensures
        r == same_letters(v@, other@),
{
    lemma_same_letters(v@, other@);
}

/// The decimal text of a number is made of digits and stands for the number.
proof fn lemma_decimal(n: nat)
    ensures
        decimal(n).len() > 0,
        forall|i: int| 0 <= i < decimal(n).len() ==> '0' <= #[trigger] decimal(n)[i] <= '9',
        decimal(n).len() > 1 ==> decimal(n)[0] != '0',
        n > 0 ==> decimal(n)[0] != '0',
        number(decimal(n)) == n,
    decreases n,
{
    reveal_with_fuel(number, 2);
    if n >= 10 {
        lemma_decimal(n / 10);
        assert(decimal(n).drop_last() == decimal(n / 10));
    } else {
        assert(decimal(n).drop_last() == Seq::<char>::empty());
    }
}

/// A number's text is made of decimal digits, has no leading zero, and stands for the number.
pub proof fn decimal_text_reads_back(n: u64, r: String)
    requires
        call_ensures(decimal_text, (n,), r),
    ensures
        r@.len() > 0,
        forall|i: int| 0 <= i < r@.len() ==> '0' <= #[trigger] r@[i] <= '9',
        r@.len() > 1 ==> r@[0] != '0',
        number(r@) == n,
{
    lemma_decimal(n as nat);
}

} // verus!
