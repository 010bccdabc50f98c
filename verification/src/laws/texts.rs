//! What holds of texts, whatever they say.

use vstd::prelude::*;

use crate::text::{
    ascii_lower, ascii_lowercase, blank, decimal, digit, tag_label_text, trimmed, trimmed_end,
    trimmed_start, white_space,
};

verus! {

/// A text is blank exactly where both its parts are.
pub proof fn law_blank_by_parts(a: Seq<char>, b: Seq<char>)
    ensures
        blank(a + b) <==> blank(a) && blank(b),
{
    if blank(a + b) {
        assert forall|i: int| 0 <= i < a.len() implies white_space(#[trigger] a[i]) by {
            assert((a + b)[i] == a[i]);
        }
        assert forall|i: int| 0 <= i < b.len() implies white_space(#[trigger] b[i]) by {
            assert((a + b)[a.len() + i] == b[i]);
        }
    }
}

/// The empty text is blank, and a single character is where it is white space.
pub proof fn law_blank_of_few(c: char)
    ensures
        blank(Seq::empty()),
        blank(seq![c]) <==> white_space(c),
{
    assert(seq![c][0] == c);
}

/// Of the ASCII characters the white space is the space and what moves the
/// cursor: tabulators, line and page ends. Beyond ASCII it is the next-line
/// character, the no-break space, the space of Ogham and the spaces and
/// separators of the general and the CJK punctuation.
pub proof fn law_white_space(c: char)
    ensures
        c as int <= 0x7f ==> (white_space(c) <==> c == ' ' || c == '\t' || c == '\n' || c == '\r'
            || c as int == 0x0b || c as int == 0x0c),
        0x80 <= c as int <= 0xff ==> (white_space(c) <==> c as int == 0x85 || c as int == 0xa0),
        0x100 <= c as int <= 0x1fff ==> (white_space(c) <==> c as int == 0x1680),
        0x2000 <= c as int <= 0x206f ==> (white_space(c) <==> c as int <= 0x200a || c as int
            == 0x2028 || c as int == 0x2029 || c as int == 0x202f || c as int == 0x205f),
        c as int >= 0x2070 ==> (white_space(c) <==> c as int == 0x3000),
{
}

/// A text that shows anything in ASCII is not blank.
pub proof fn law_visible_text_is_not_blank(s: Seq<char>, i: int)
    requires
        0 <= i < s.len(),
        0x21 <= s[i] as int <= 0x7e,
    ensures
        !blank(s),
{
    assert(!white_space(s[i]));
}

/// Trimming takes blank texts off both ends, and all that can be taken.
pub proof fn law_trimmed(s: Seq<char>) -> (ends: (Seq<char>, Seq<char>))
    ensures
        s == ends.0 + trimmed(s) + ends.1,
        blank(ends.0),
        blank(ends.1),
        trimmed(s).len() > 0 ==> !white_space(trimmed(s).first()) && !white_space(
            trimmed(s).last(),
        ),
{
    let front = lemma_trimmed_start(s);
    let back = lemma_trimmed_end(trimmed_start(s));
    assert(s =~= front + trimmed(s) + back);
    let rest = trimmed_start(s);
    if trimmed(s).len() > 0 {
        assert((trimmed(s) + back)[0] == trimmed(s)[0]);
    }
    (front, back)
}

proof fn lemma_trimmed_start(s: Seq<char>) -> (front: Seq<char>)
    ensures
        s == front + trimmed_start(s),
        blank(front),
        trimmed_start(s).len() > 0 ==> !white_space(trimmed_start(s).first()),
    decreases s.len(),
{
    if s.len() > 0 && white_space(s.first()) {
        let front = lemma_trimmed_start(s.drop_first());
        law_blank_of_few(s.first());
        law_blank_by_parts(seq![s.first()], front);
        assert(s =~= seq![s.first()] + s.drop_first());
        assert(s =~= (seq![s.first()] + front) + trimmed_start(s));
        seq![s.first()] + front
    } else {
        assert(s =~= Seq::<char>::empty() + trimmed_start(s));
        Seq::empty()
    }
}

proof fn lemma_trimmed_end(s: Seq<char>) -> (back: Seq<char>)
    ensures
        s == trimmed_end(s) + back,
        blank(back),
        trimmed_end(s).len() > 0 ==> !white_space(trimmed_end(s).last()),
    decreases s.len(),
{
    if s.len() > 0 && white_space(s.last()) {
        let back = lemma_trimmed_end(s.drop_last());
        law_blank_of_few(s.last());
        law_blank_by_parts(back, seq![s.last()]);
        assert(s =~= s.drop_last() + seq![s.last()]);
        assert(s =~= trimmed_end(s) + (back + seq![s.last()]));
        back + seq![s.last()]
    } else {
        assert(s =~= trimmed_end(s) + Seq::<char>::empty());
        Seq::empty()
    }
}

/// Lower-casing ASCII text works character by character: `A` to `Z` become
/// the letters that many places behind `a`, all else is kept; doing it again
/// changes nothing.
pub proof fn law_ascii_lowercase(s: Seq<char>)
    ensures
        ascii_lowercase(s).len() == s.len(),
        forall|i: int|
            0 <= i < s.len() ==> {
                let lower = #[trigger] ascii_lowercase(s)[i];
                if 0x41 <= s[i] as int <= 0x5a {
                    lower as int - 'a' as int == s[i] as int - 'A' as int
                } else {
                    lower == s[i]
                }
            },
        ascii_lowercase(ascii_lowercase(s)) == ascii_lowercase(s),
{
    assert(ascii_lowercase(ascii_lowercase(s)) =~= ascii_lowercase(s));
}

/// The number that a numeral stands for.
pub open spec fn numeral_value(s: Seq<char>) -> int
    decreases s.len(),
{
    if s.len() == 0 {
        0
    } else {
        10 * numeral_value(s.drop_last()) + (s.last() as int - '0' as int)
    }
}

/// A decimal numeral stands for its number, is made of digits, and has no
/// zero in front but in the numeral of zero.
pub proof fn law_decimal_is_a_numeral(n: nat)
    ensures
        numeral_value(decimal(n)) == n,
        decimal(n).len() > 0,
        forall|i: int|
            0 <= i < decimal(n).len() ==> '0' as int <= (#[trigger] decimal(n)[i]) as int <= '9' as int,
        n > 0 ==> decimal(n)[0] != '0',
        n == 0 ==> decimal(n).len() == 1,
    decreases n,
{
    if n < 10 {
        assert(decimal(n) =~= seq![digit(n)]);
        assert(decimal(n).drop_last() =~= Seq::<char>::empty());
        assert(numeral_value(Seq::<char>::empty()) == 0);
        assert(decimal(n).last() == digit(n));
    } else {
        law_decimal_is_a_numeral(n / 10);
        let front = decimal(n / 10);
        assert(decimal(n) == front.push(digit(n % 10)));
        assert(decimal(n).drop_last() =~= front);
        assert(decimal(n)[0] == front[0]);
    }
}

/// The label of a tag is the tag behind one `#`.
pub proof fn law_tag_label(tag: Seq<char>)
    ensures
        tag_label_text(tag).len() == tag.len() + 1,
        tag_label_text(tag)[0] == '#',
        tag_label_text(tag).skip(1) == tag,
{
    assert(tag_label_text(tag).skip(1) =~= tag);
}

} // verus!
