//! Unicode text transforms at the specification level: UTF-16 encoding and
//! lossy decoding, and the reading of 32-bit units as scalar values.

use vstd::prelude::*;
use vstd::utf8::is_scalar;

verus! {

/// The UTF-16 code units of one character: a single unit for a character
/// of the basic plane, a surrogate pair otherwise.
pub open spec fn utf16_units_of(c: char) -> Seq<u16> {
    let v = c as u32;
    if v < 0x10000 {
        seq![v as u16]
    } else {
        seq![
            (0xD800 + (v - 0x10000) / 0x400) as u16,
            (0xDC00 + (v - 0x10000) % 0x400) as u16,
        ]
    }
}

/// The UTF-16 encoding of a character sequence.
pub open spec fn utf16_encode(chars: Seq<char>) -> Seq<u16>
    decreases chars.len(),
{
    if chars.len() == 0 {
        Seq::empty()
    } else {
        utf16_units_of(chars[0]) + utf16_encode(chars.drop_first())
    }
}

pub open spec fn is_high_surrogate(u: u16) -> bool {
    0xD800 <= u <= 0xDBFF
}

pub open spec fn is_low_surrogate(u: u16) -> bool {
    0xDC00 <= u <= 0xDFFF
}

/// The scalar value a surrogate pair encodes.
pub open spec fn combined_surrogates(hi: u16, lo: u16) -> u32 {
    (0x10000 + (hi - 0xD800) * 0x400 + (lo - 0xDC00)) as u32
}

/// Lossy UTF-16 decoding: a high surrogate followed by a low surrogate
/// becomes the character they encode, any other surrogate becomes the
/// replacement character, and every remaining unit is a character of the
/// basic plane.
pub open spec fn decode_utf16_lossy(units: Seq<u16>) -> Seq<char>
    decreases units.len(),
{
    if units.len() == 0 {
        Seq::empty()
    } else if is_high_surrogate(units[0]) && units.len() >= 2 && is_low_surrogate(units[1]) {
        seq![combined_surrogates(units[0], units[1]) as char] + decode_utf16_lossy(units.skip(2))
    } else if is_high_surrogate(units[0]) || is_low_surrogate(units[0]) {
        seq!['\u{FFFD}'] + decode_utf16_lossy(units.skip(1))
    } else {
        seq![(units[0] as u32) as char] + decode_utf16_lossy(units.skip(1))
    }
}

/// Each 32-bit unit read as the character with that scalar value; a unit
/// that is not a valid Unicode scalar value reads as the replacement
/// character.
pub open spec fn chars_of_units(units: Seq<u32>) -> Seq<char> {
    Seq::new(
        units.len(),
        |i: int|
            if is_scalar(units[i]) {
                units[i] as char
            } else {
                '\u{FFFD}'
            },
    )
}

/// The scalar value of each character.
pub open spec fn scalars_of(chars: Seq<char>) -> Seq<u32> {
    Seq::new(chars.len(), |i: int| chars[i] as u32)
}

/// Law: a text's UTF-16 encoding never has more code units than its UTF-8
/// encoding has bytes, so an export buffer of one 16-bit unit per byte of
/// storage, terminator included, always suffices.
pub proof fn lemma_utf16_units_fit(chars: Seq<char>)
    ensures
        utf16_encode(chars).len() <= vstd::utf8::encode_utf8(chars).len(),
    decreases chars.len(),
{
    if chars.len() > 0 {
        vstd::utf8::char_is_scalar(chars[0]);
        lemma_utf16_units_fit(chars.drop_first());
    }
}

/// Law: a text never has more characters than its UTF-8 encoding has
/// bytes, so an export buffer of one 32-bit unit per byte of storage,
/// terminator included, always suffices.
pub proof fn lemma_char_count_fits(chars: Seq<char>)
    ensures
        chars.len() <= vstd::utf8::encode_utf8(chars).len(),
    decreases chars.len(),
{
    if chars.len() > 0 {
        vstd::utf8::char_is_scalar(chars[0]);
        lemma_char_count_fits(chars.drop_first());
    }
}

/// Reads one 32-bit unit as a character, substituting the replacement
/// character when the unit is not a valid Unicode scalar value.
pub fn char_of_unit(u: u32) -> (c: char)
    ensures
        c == if is_scalar(u) {
            u as char
        } else {
            '\u{FFFD}'
        },
{
    match char::from_u32(u) {
        Some(c) => {
            proof {
                vstd::utf8::char_u32_cast(c, u);
            }
            c
        },
        None => '\u{FFFD}',
    }
}

} // verus!
