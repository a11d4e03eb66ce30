//! Initial letters of the pinyin readings of Chinese characters in names.
use vstd::prelude::*;

use pinyin::ToPinyin;

verus! {

/// The toneless pinyin reading that the `pinyin` crate's table gives a
/// character, if it has one.
pub uninterp spec fn plain_pinyin_of(c: char) -> Option<Seq<char>>;

/// Relies on `<char as pinyin::ToPinyin>::to_pinyin` and
/// `pinyin::Pinyin::plain`: the toneless reading of a character, when the
/// crate's table holds one.
#[verifier::external_body]
fn plain_pinyin(c: char) -> (r: Option<String>)
    ensures
        match r {
            Some(s) => plain_pinyin_of(c) == Some(s@),
            None => plain_pinyin_of(c) is None,
        },
{
    c.to_pinyin().map(|p| p.plain().to_string())
}

/// Relies on `String::push`: appends one character.
#[verifier::external_body]
fn push_char(s: &mut String, c: char)
    ensures
        final(s)@ == old(s)@.push(c),
{
    s.push(c)
}

/// A character of the CJK Unified Ideographs block.
pub open spec fn is_cjk(c: char) -> bool {
    0x4E00 <= c as u32 <= 0x9FFF
}

/// The letter that stands for `c`, given the reading found for it: the
/// reading's first letter for a CJK character (`x` where there is none),
/// the character itself otherwise.
pub open spec fn initial_with(c: char, reading: Option<Seq<char>>) -> char {
    if is_cjk(c) {
        match reading {
            Some(p) => if p.len() > 0 { p[0] } else { 'x' },
            None => 'x',
        }
    } else {
        c
    }
}

/// The letter that stands for `c` in a name's initials.
pub open spec fn initial_of(c: char) -> char {
    initial_with(c, plain_pinyin_of(c))
}

/// A name with each CJK character replaced by its pinyin initial.
pub open spec fn pinyin_initials(s: Seq<char>) -> Seq<char> {
    s.map_values(|c: char| initial_of(c))
}

/// Whether `c` lies in the CJK Unified Ideographs block.
pub fn is_cjk_char(c: char) -> (r: bool)
    ensures
        r == is_cjk(c),
{
    let u = c as u32;
    0x4E00 <= u && u <= 0x9FFF
}

/// Some character of `s` is a CJK ideograph.
pub open spec fn has_cjk_spec(s: Seq<char>) -> bool {
    exists|i: int| 0 <= i < s.len() && is_cjk(#[trigger] s[i])
}

/// Whether `s` holds a CJK ideograph, the names that pinyin matching
/// applies to.
pub fn has_cjk(s: &str) -> (r: bool)
    ensures
        r == has_cjk_spec(s@),
{
    for c in it: s.chars()
        invariant
            it.seq() == s@,
            forall|j: int| 0 <= j < it.index() ==> !is_cjk(#[trigger] s@[j]),
    {
        if is_cjk_char(c) {
            assert(s@[it.index() as int] == c);
            return true;
        }
    }
    false
}

/// The letter that stands for `c`, given the reading looked up for it.
pub fn initial_letter(c: char, reading: &Option<String>) -> (r: char)
    ensures
        r == initial_with(c, match reading { Some(s) => Some(s@), None => None }),
{
    if !is_cjk_char(c) {
        return c;
    }
    match reading {
        Some(p) => {
            let text = p.as_str();
            if text.unicode_len() > 0 {
                text.get_char(0)
            } else {
                'x'
            }
        },
        None => 'x',
    }
}

/// Replaces each Chinese character of `text` by the first letter of its
/// pinyin reading (`x` where the reading is unknown); other characters stay.
pub fn to_pinyin_initials(text: &str) -> (r: String)
    ensures
        r@ == pinyin_initials(text@),
{
    let mut result = String::new();
    for c in it: text.chars()
        invariant
            it.seq() == text@,
            result@ == pinyin_initials(text@.take(it.index() as int)),
    {
        let reading = if is_cjk_char(c) { plain_pinyin(c) } else { None };
        let letter = initial_letter(c, &reading);
        assert(letter == initial_of(c));
        let ghost i = it.index();
        push_char(&mut result, letter);
        assert(text@.take(i + 1) =~= text@.take(i as int).push(c));
        assert(pinyin_initials(text@.take(i + 1)) =~= pinyin_initials(text@.take(i as int)).push(letter));
    }
    assert(text@.take(text@.len() as int) =~= text@);
    result
}

} // verus!
