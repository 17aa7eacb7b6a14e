//! Text as the null-terminated UTF-16 sequences that the wide-character
//! platform calls take.

use vstd::prelude::*;
use vstd::std_specs::iter::IteratorSpec;
use vstd::string::StringSliceAdditionalSpecFns;
use vstd::string::is_ascii;
use vstd::string::is_ascii_spec_bytes;
use vstd::utf8::char_is_scalar;
use vstd::utf8::is_ascii_chars_nat_bound;

verus! {

/// The UTF-16 code units of one character: the character itself inside the
/// basic plane, a high and a low surrogate above it.
pub open spec fn units_of(c: char) -> Seq<u16> {
    let v = c as u32;
    if v < 0x1_0000 {
        seq![v as u16]
    } else {
        seq![
            (0xD800 + (v - 0x1_0000) / 0x400) as u16,
            (0xDC00 + (v - 0x1_0000) % 0x400) as u16,
        ]
    }
}

/// The scalar value that one or two code units stand for.
pub open spec fn scalar_of(units: Seq<u16>) -> int {
    if units.len() == 1 {
        units[0] as int
    } else {
        0x1_0000 + (units[0] - 0xD800) * 0x400 + (units[1] - 0xDC00)
    }
}

/// The UTF-16 encoding of a text: the units of its characters, in order.
pub open spec fn utf16(text: Seq<char>) -> Seq<u16>
    decreases text.len(),
{
    if text.len() == 0 {
        Seq::empty()
    } else {
        utf16(text.drop_last()) + units_of(text.last())
    }
}

/// A text as a wide string: its UTF-16 encoding and a terminating zero.
pub open spec fn wide(text: Seq<char>) -> Seq<u16> {
    utf16(text).push(0u16)
}

/// Encodes a string as a null-terminated UTF-16 sequence.
pub fn to_utf16(s: &str) -> (w: Vec<u16>)
    ensures
        w@ == wide(s@),
        w@.len() >= 1,
        w@.last() == 0,
{
    let mut w: Vec<u16> = Vec::new();
    for c in it: s.chars()
        invariant
            it.seq() == s@,
            w@ == utf16(s@.take(it.index() as int)),
    {
        proof {
            let done = it.index() as int;
            assert(s@.take(done + 1).drop_last() == s@.take(done));
            assert(s@.take(done + 1).last() == c);
            char_is_scalar(c);
        }
        let v: u32 = c as u32;
        if v < 0x1_0000 {
            w.push(v as u16);
        } else {
            let high: u32 = 0xD800 + (v - 0x1_0000) / 0x400;
            let low: u32 = 0xDC00 + (v - 0x1_0000) % 0x400;
            w.push(high as u16);
            w.push(low as u16);
        }
    }
    assert(s@.take(s@.len() as int) == s@);
    w.push(0);
    w
}

/// The units of a character stand for that character, and tell by
/// themselves whether they are one unit or a surrogate pair: a single unit
/// is never a surrogate, and a pair is a high surrogate and a low one.
pub proof fn units_stand_for_their_character(c: char)
    ensures
        scalar_of(units_of(c)) == c as u32,
        units_of(c).len() == 1 ==> !(0xD800 <= units_of(c)[0] <= 0xDFFF),
        units_of(c).len() != 1 ==> {
            &&& units_of(c).len() == 2
            &&& 0xD800 <= units_of(c)[0] <= 0xDBFF
            &&& 0xDC00 <= units_of(c)[1] <= 0xDFFF
        },
{
    char_is_scalar(c);
}

/// No unit of a character other than NUL is zero.
pub proof fn units_are_not_zero(c: char)
    requires
        c != '\0',
    ensures
        forall|j: int| 0 <= j < units_of(c).len() ==> units_of(c)[j] != 0,
{
    char_is_scalar(c);
    assert(c as u32 != 0) by {
        if c as u32 == 0 {
            assert('\0' as u32 == 0);
            assert(c == '\0');
        }
    }
}

/// The encoding of two texts in a row is their encodings in a row.
pub proof fn utf16_of_concat(a: Seq<char>, b: Seq<char>)
    ensures
        utf16(a + b) == utf16(a) + utf16(b),
    decreases b.len(),
{
    if b.len() == 0 {
        assert(a + b == a);
    } else {
        assert((a + b).drop_last() == a + b.drop_last());
        utf16_of_concat(a, b.drop_last());
    }
}

/// Every character takes one or two units.
pub proof fn utf16_len_bounds(text: Seq<char>)
    ensures
        text.len() <= utf16(text).len() <= 2 * text.len(),
    decreases text.len(),
{
    if text.len() > 0 {
        utf16_len_bounds(text.drop_last());
    }
}

/// The encoding of a text without NUL holds no zero.
pub proof fn utf16_has_no_zero(text: Seq<char>)
    requires
        forall|i: int| 0 <= i < text.len() ==> text[i] != '\0',
    ensures
        forall|j: int| 0 <= j < utf16(text).len() ==> utf16(text)[j] != 0,
    decreases text.len(),
{
    if text.len() > 0 {
        let front = utf16(text.drop_last());
        let back = units_of(text.last());
        utf16_has_no_zero(text.drop_last());
        units_are_not_zero(text.last());
        assert forall|j: int| 0 <= j < utf16(text).len() implies utf16(text)[j] != 0 by {
            if j < front.len() {
                assert(utf16(text)[j] == front[j]);
            } else {
                assert(utf16(text)[j] == back[j - front.len()]);
            }
        }
    }
}

/// In the wide form of a text without NUL, the terminator is the first
/// zero: a call that takes the sequence sees the whole text.
pub proof fn terminator_is_first_zero(text: Seq<char>)
    requires
        forall|i: int| 0 <= i < text.len() ==> text[i] != '\0',
    ensures
        wide(text).len() == utf16(text).len() + 1,
        forall|j: int| 0 <= j < utf16(text).len() ==> wide(text)[j] != 0,
        wide(text)[utf16(text).len() as int] == 0,
{
    utf16_has_no_zero(text);
}

/// A text of the basic plane is encoded unit for character.
pub proof fn utf16_of_basic_plane(text: Seq<char>)
    requires
        forall|i: int| 0 <= i < text.len() ==> (text[i] as u32) < 0x1_0000,
    ensures
        utf16(text).len() == text.len(),
        forall|i: int| 0 <= i < text.len() ==> utf16(text)[i] == text[i] as u32,
    decreases text.len(),
{
    if text.len() > 0 {
        utf16_of_basic_plane(text.drop_last());
    }
}

/// The wide form of an ASCII string is its bytes, each widened to a unit,
/// and the terminator.
pub proof fn wide_of_ascii(s: &str)
    requires
        is_ascii(s),
    ensures
        wide(s@).len() == s.spec_bytes().len() + 1,
        forall|i: int| 0 <= i < s.spec_bytes().len() ==> wide(s@)[i] == s.spec_bytes()[i],
        wide(s@)[s.spec_bytes().len() as int] == 0,
{
    is_ascii_spec_bytes(s);
    is_ascii_chars_nat_bound(s@);
    utf16_of_basic_plane(s@);
}

} // verus!
