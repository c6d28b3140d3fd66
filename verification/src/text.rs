//! Operations on the managed string: construction from bytes and from
//! UTF-8/16/32 encoded text, cloning, release, swap, and export of the
//! text as zero-terminated unit vectors in the three encodings.
//!
//! Construction never fails: invalid encoded input is repaired with the
//! replacement character, and an absent input yields the empty string.

use vstd::prelude::*;
use vstd::string::StrSliceExecFns;
use vstd::utf8::decode_utf8;
use vstd::utf8::encode_utf8;
use vstd::utf8::valid_utf8;
use bytes::Bytes;
use crate::ext::BStr;
use crate::ext::bytes_view;
use crate::ext::ext_bstr_as_str;
use crate::ext::ext_bstr_clone;
use crate::ext::ext_bstr_from_static;
use crate::ext::ext_bstr_from_string;
use crate::ext::ext_bstr_new;
use crate::ext::ext_bstr_try_from_bytes;
use crate::ext::ext_bytes_as_slice;
use crate::ext::ext_bytes_clone;
use crate::ext::ext_encode_utf16;
use crate::ext::ext_string_from_chars;
use crate::ext::ext_utf16_lossy;
use crate::ext::ext_utf8_lossy;
use crate::ext::lossy_utf8;
use crate::ext::str_chars;
use crate::unicode::char_of_unit;
use crate::unicode::chars_of_units;
use crate::unicode::decode_utf16_lossy;
use crate::unicode::scalars_of;
use crate::unicode::utf16_encode;

verus! {

/// An export buffer produced by a duplicate operation: the code units to
/// hand to the caller, terminator included, and whether the caller should
/// shrink its allocation to the exact size (the unit count came out far
/// enough under the estimate it allocated by).
pub struct Export<U> {
    pub units: Vec<U>,
    pub shrink: bool,
}

/// Returns an empty managed string.
pub fn bstr_new() -> (r: BStr)
    ensures
        str_chars(r) == Seq::<char>::empty(),
{
    ext_bstr_new()
}

/// Builds a managed string from a byte buffer: valid UTF-8 bytes are
/// reinterpreted without a copy, anything else is repaired into an owned
/// copy with invalid sequences replaced; an absent input yields the empty
/// string.
pub fn bstr_from_bytes(bytes: Option<&Bytes>) -> (r: BStr)
    ensures
        match bytes {
            Some(b) => {
                &&& valid_utf8(bytes_view(*b)) ==> str_chars(r) == decode_utf8(bytes_view(*b))
                &&& !valid_utf8(bytes_view(*b)) ==> str_chars(r) == lossy_utf8(bytes_view(*b))
            },
            None => str_chars(r) == Seq::<char>::empty(),
        },
{
    match bytes {
        Some(b) => {
            let shared = ext_bytes_clone(b);
            match ext_bstr_try_from_bytes(shared) {
                Some(s) => s,
                None => {
                    let data = ext_bytes_as_slice(b);
                    ext_bstr_from_string(ext_utf8_lossy(data))
                },
            }
        },
        None => ext_bstr_new(),
    }
}

/// Wraps text that stays valid for the program's lifetime, without copying
/// it; an absent input yields the empty string.
pub fn bstr_from_static(text: Option<&'static str>) -> (r: BStr)
    ensures
        match text {
            Some(t) => str_chars(r) == t@,
            None => str_chars(r) == Seq::<char>::empty(),
        },
{
    match text {
        Some(t) => ext_bstr_from_static(t),
        None => ext_bstr_new(),
    }
}

/// Decodes a byte slice as UTF-8 into an owned managed string, replacing
/// invalid sequences with the replacement character; valid input decodes
/// unchanged; an absent input yields the empty string.
pub fn bstr_from_utf8(data: Option<&[u8]>) -> (r: BStr)
    ensures
        match data {
            Some(d) => {
                &&& str_chars(r) == lossy_utf8(d@)
                &&& valid_utf8(d@) ==> str_chars(r) == decode_utf8(d@)
            },
            None => str_chars(r) == Seq::<char>::empty(),
        },
{
    match data {
        Some(d) => ext_bstr_from_string(ext_utf8_lossy(d)),
        None => ext_bstr_new(),
    }
}

/// Decodes 16-bit units as UTF-16 into an owned managed string, replacing
/// every unpaired surrogate with the replacement character; an absent
/// input yields the empty string.
pub fn bstr_from_utf16(units: Option<&[u16]>) -> (r: BStr)
    ensures
        match units {
            Some(u) => str_chars(r) == decode_utf16_lossy(u@),
            None => str_chars(r) == Seq::<char>::empty(),
        },
{
    match units {
        Some(u) => ext_bstr_from_string(ext_utf16_lossy(u)),
        None => ext_bstr_new(),
    }
}

/// Reads each 32-bit unit as a Unicode scalar value and collects the
/// characters into an owned managed string; an absent input yields the
/// empty string. A unit that is not a valid scalar value becomes the
/// replacement character: this pins down a case the exported surface
/// otherwise leaves open.
pub fn bstr_from_utf32(units: Option<&[u32]>) -> (r: BStr)
    ensures
        match units {
            Some(u) => str_chars(r) == chars_of_units(u@),
            None => str_chars(r) == Seq::<char>::empty(),
        },
{
    match units {
        Some(u) => {
            let n = u.len();
            let mut chars: Vec<char> = Vec::new();
            let mut i: usize = 0;
            while i < n
                invariant
                    i <= n,
                    n == u@.len(),
                    chars@ == chars_of_units(u@.subrange(0, i as int)),
                decreases n - i,
            {
                let c = char_of_unit(u[i]);
                chars.push(c);
                i = i + 1;
                proof {
                    assert(chars@ =~= chars_of_units(u@.subrange(0, i as int)));
                }
            }
            proof {
                assert(u@.subrange(0, n as int) =~= u@);
            }
            ext_bstr_from_string(ext_string_from_chars(chars))
        },
        None => ext_bstr_new(),
    }
}

/// A new handle to the same text (the reference count grows by one; no
/// bytes are copied); an absent input yields the empty string.
pub fn bstr_clone(s: Option<&BStr>) -> (r: BStr)
    ensures
        match s {
            Some(t) => str_chars(r) == str_chars(*t),
            None => str_chars(r) == Seq::<char>::empty(),
        },
{
    match s {
        Some(t) => ext_bstr_clone(t),
        None => ext_bstr_new(),
    }
}

/// Replaces the pointee with the empty string, dropping the prior
/// reference (the storage is freed when its count reaches zero).
pub fn bstr_release(s: &mut BStr)
    ensures
        str_chars(*final(s)) == Seq::<char>::empty(),
{
    *s = ext_bstr_new();
}

/// Exchanges the contents of two string slots in place.
pub fn bstr_swap(a: &mut BStr, b: &mut BStr)
    ensures
        *final(a) == *old(b),
        *final(b) == *old(a),
{
    core::mem::swap(a, b);
}

/// Exports the string's UTF-8 bytes followed by one zero byte: exactly the
/// encoding's length plus one, ending in the terminator; an absent input
/// yields nothing.
pub fn bstr_dup_utf8(s: Option<&BStr>) -> (r: Option<Vec<u8>>)
    ensures
        match s {
            Some(t) => {
                &&& r matches Some(v)
                &&& v@ == encode_utf8(str_chars(*t)).push(0u8)
                &&& v@.len() == encode_utf8(str_chars(*t)).len() + 1
                &&& v@[v@.len() - 1] == 0u8
            },
            None => r is None,
        },
{
    match s {
        Some(t) => {
            let text = ext_bstr_as_str(t);
            let mut v = text.as_bytes_vec();
            v.push(0u8);
            Some(v)
        },
        None => None,
    }
}

/// Exports the string as UTF-16 code units followed by one zero unit. The
/// shrink flag asks the caller to reallocate exactly when the unit count
/// (terminator excluded) sits at least 32 units under the byte length the
/// caller allocated by.
pub fn bstr_dup_utf16(s: Option<&BStr>) -> (r: Option<Export<u16>>)
    ensures
        match s {
            Some(t) => {
                &&& r matches Some(e)
                &&& e.units@ == utf16_encode(str_chars(*t)).push(0u16)
                &&& e.shrink == (encode_utf8(str_chars(*t)).len() >= utf16_encode(
                    str_chars(*t),
                ).len() + 32)
            },
            None => r is None,
        },
{
    match s {
        Some(t) => {
            let text = ext_bstr_as_str(t);
            let byte_len = text.as_bytes().len();
            let mut units = ext_encode_utf16(text);
            let count = units.len();
            let shrink = byte_len >= count && byte_len - count >= 32;
            units.push(0u16);
            Some(Export { units, shrink })
        },
        None => None,
    }
}

/// Exports the string as one 32-bit scalar value per character followed by
/// one zero unit. The shrink flag asks the caller to reallocate exactly
/// when the character count (terminator excluded) sits at least 16 units
/// under the byte length the caller allocated by.
pub fn bstr_dup_utf32(s: Option<&BStr>) -> (r: Option<Export<u32>>)
    ensures
        match s {
            Some(t) => {
                &&& r matches Some(e)
                &&& e.units@ == scalars_of(str_chars(*t)).push(0u32)
                &&& e.shrink == (encode_utf8(str_chars(*t)).len() >= str_chars(*t).len() + 16)
            },
            None => r is None,
        },
{
    match s {
        Some(t) => {
            let text = ext_bstr_as_str(t);
            let byte_len = text.as_bytes().len();
            let n = text.unicode_len();
            let mut units: Vec<u32> = Vec::new();
            let mut i: usize = 0;
            while i < n
                invariant
                    i <= n,
                    n == text@.len(),
                    units@ == scalars_of(text@.subrange(0, i as int)),
                decreases n - i,
            {
                let c = text.get_char(i);
                units.push(c as u32);
                i = i + 1;
                proof {
                    assert(units@ =~= scalars_of(text@.subrange(0, i as int)));
                }
            }
            proof {
                assert(text@.subrange(0, n as int) =~= text@);
            }
            let count = units.len();
            let shrink = byte_len >= count && byte_len - count >= 16;
            units.push(0u32);
            Some(Export { units, shrink })
        },
        None => None,
    }
}

/// The string's length in bytes of storage: the length of its characters'
/// UTF-8 encoding.
pub fn bstr_len(s: &BStr) -> (r: usize)
    ensures
        r as int == encode_utf8(str_chars(*s)).len(),
{
    ext_bstr_as_str(s).as_bytes().len()
}

/// Law: a managed string's storage holds the UTF-8 encoding of its
/// characters; that encoding is valid UTF-8 and decodes back to the same
/// characters. So reinterpreting a string as a byte buffer and
/// constructing a string from that buffer takes the zero-copy path and
/// returns an equal string.
pub proof fn lemma_string_bytes_round_trip(chars: Seq<char>)
    ensures
        valid_utf8(encode_utf8(chars)),
        decode_utf8(encode_utf8(chars)) == chars,
{
    broadcast use vstd::utf8::encode_utf8_valid_utf8;
    broadcast use vstd::utf8::encode_utf8_decode_utf8;

}

} // verus!
