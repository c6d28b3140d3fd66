//! Operations on the shared byte buffer: construction, slicing, cloning,
//! release, swap, and the base64 codec pair.
//!
//! An absent (`None`) input never faults: every constructor degrades to an
//! empty buffer, as the contracts state.

use vstd::prelude::*;
use vstd::utf8::encode_utf8;
use bytes::Bytes;
use crate::ext::BStr;
use crate::ext::base64_decoded;
use crate::ext::base64_text;
use crate::ext::bytes_view;
use crate::ext::ext_base64_decode;
use crate::ext::ext_base64_encode;
use crate::ext::ext_bstr_as_str;
use crate::ext::ext_bstr_clone;
use crate::ext::ext_bstr_from_string;
use crate::ext::ext_bstr_into_bytes;
use crate::ext::ext_bstr_new;
use crate::ext::ext_bytes_as_slice;
use crate::ext::ext_bytes_clone;
use crate::ext::ext_bytes_copy;
use crate::ext::ext_bytes_from_static;
use crate::ext::ext_bytes_from_vec;
use crate::ext::ext_bytes_new;
use crate::ext::ext_bytes_slice;
use crate::ext::str_chars;

verus! {

/// The sub-sequence selected by a start/stop pair, with `stop` clamped to
/// the sequence's length and `start` clamped to at most the clamped stop,
/// so that an inverted or out-of-range pair selects an empty or valid
/// range instead of being an error.
pub open spec fn clamped_range(s: Seq<u8>, start: int, stop: int) -> Seq<u8> {
    let stop_c = if stop > s.len() {
        s.len() as int
    } else {
        stop
    };
    let start_c = if start > stop_c {
        stop_c
    } else {
        start
    };
    s.subrange(start_c, stop_c)
}

/// What decoding base64 text yields here: the encoded bytes, or an empty
/// sequence when the text is not valid base64.
pub open spec fn base64_decoded_or_empty(text: Seq<u8>) -> Seq<u8> {
    match base64_decoded(text) {
        Some(v) => v,
        None => Seq::empty(),
    }
}

/// Returns an empty buffer.
pub fn bytes_new() -> (r: Bytes)
    ensures
        bytes_view(r) == Seq::<u8>::empty(),
{
    ext_bytes_new()
}

/// Wraps memory that stays valid for the program's lifetime, without
/// copying it; an absent input yields an empty buffer.
pub fn bytes_from_static(data: Option<&'static [u8]>) -> (r: Bytes)
    ensures
        match data {
            Some(d) => bytes_view(r) == d@,
            None => bytes_view(r) == Seq::<u8>::empty(),
        },
{
    match data {
        Some(d) => ext_bytes_from_static(d),
        None => ext_bytes_new(),
    }
}

/// Reinterprets a managed string's storage as a plain byte buffer, shared
/// and without a copy; an absent input yields an empty buffer.
pub fn bytes_from_bstr(s: Option<&BStr>) -> (r: Bytes)
    ensures
        match s {
            Some(t) => bytes_view(r) == encode_utf8(str_chars(*t)),
            None => bytes_view(r) == Seq::<u8>::empty(),
        },
{
    match s {
        Some(t) => ext_bstr_into_bytes(ext_bstr_clone(t)),
        None => ext_bytes_new(),
    }
}

/// Copies a memory region into fresh storage; an absent or empty input
/// yields an empty buffer.
pub fn bytes_copy_from_slice(data: Option<&[u8]>) -> (r: Bytes)
    ensures
        match data {
            Some(d) => bytes_view(r) == d@,
            None => bytes_view(r) == Seq::<u8>::empty(),
        },
{
    match data {
        Some(d) => {
            if d.len() == 0 {
                let r = ext_bytes_new();
                proof {
                    assert(bytes_view(r) =~= d@);
                }
                r
            } else {
                ext_bytes_copy(d)
            }
        },
        None => ext_bytes_new(),
    }
}

/// A shared view of a sub-range of the buffer, clamping `stop` to the
/// buffer's length and `start` to at most the clamped `stop`, so that an
/// inverted or out-of-range pair degrades to an empty or valid sub-slice;
/// an absent input yields an empty buffer.
pub fn bytes_slice(bytes: Option<&Bytes>, start: usize, stop: usize) -> (r: Bytes)
    ensures
        match bytes {
            Some(b) => bytes_view(r) == clamped_range(bytes_view(*b), start as int, stop as int),
            None => bytes_view(r) == Seq::<u8>::empty(),
        },
{
    match bytes {
        Some(b) => {
            let len = ext_bytes_as_slice(b).len();
            let stop_c = if stop < len {
                stop
            } else {
                len
            };
            let start_c = if start < stop_c {
                start
            } else {
                stop_c
            };
            ext_bytes_slice(b, start_c, stop_c)
        },
        None => ext_bytes_new(),
    }
}

/// A new handle to the same storage (the reference count grows by one; no
/// bytes are copied); an absent input yields an empty buffer.
pub fn bytes_clone(bytes: Option<&Bytes>) -> (r: Bytes)
    ensures
        match bytes {
            Some(b) => bytes_view(r) == bytes_view(*b),
            None => bytes_view(r) == Seq::<u8>::empty(),
        },
{
    match bytes {
        Some(b) => ext_bytes_clone(b),
        None => ext_bytes_new(),
    }
}

/// Replaces the pointee with an empty buffer, dropping the prior reference
/// (the storage is freed when its count reaches zero).
pub fn bytes_release(s: &mut Bytes)
    ensures
        bytes_view(*final(s)) == Seq::<u8>::empty(),
{
    *s = ext_bytes_new();
}

/// Exchanges the contents of two buffer slots in place.
pub fn bytes_swap(a: &mut Bytes, b: &mut Bytes)
    ensures
        *final(a) == *old(b),
        *final(b) == *old(a),
{
    core::mem::swap(a, b);
}

/// Decodes a managed string's text as base64; a failed decode or an absent
/// input yields an empty buffer.
pub fn bytes_base64_decode(s: Option<&BStr>) -> (r: Bytes)
    ensures
        match s {
            Some(t) => bytes_view(r) == base64_decoded_or_empty(encode_utf8(str_chars(*t))),
            None => bytes_view(r) == Seq::<u8>::empty(),
        },
{
    match s {
        Some(t) => {
            let text = ext_bstr_as_str(t);
            match ext_base64_decode(text.as_bytes()) {
                Some(v) => ext_bytes_from_vec(v),
                None => {
                    let r = ext_bytes_new();
                    proof {
                        assert(bytes_view(r) =~= base64_decoded_or_empty(
                            encode_utf8(str_chars(*t)),
                        ));
                    }
                    r
                },
            }
        },
        None => ext_bytes_new(),
    }
}

/// Encodes a buffer's bytes as base64 text, returned as a managed string;
/// an absent input yields an empty string. Decoding the returned text
/// yields the buffer's bytes again, as the second clause states.
pub fn bytes_base64_encode(bytes: Option<&Bytes>) -> (r: BStr)
    ensures
        match bytes {
            Some(b) => str_chars(r) == base64_text(bytes_view(*b)) && base64_decoded(
                encode_utf8(str_chars(r)),
            ) == Some(bytes_view(*b)),
            None => str_chars(r) == Seq::<char>::empty(),
        },
{
    match bytes {
        Some(b) => ext_bstr_from_string(ext_base64_encode(b)),
        None => ext_bstr_new(),
    }
}

/// The buffer's length in bytes.
pub fn bytes_len(bytes: &Bytes) -> (r: usize)
    ensures
        r as int == bytes_view(*bytes).len(),
{
    ext_bytes_as_slice(bytes).len()
}

/// The buffer's bytes, copied out into a plain vector.
pub fn bytes_to_vec(bytes: &Bytes) -> (r: Vec<u8>)
    ensures
        r@ == bytes_view(*bytes),
{
    vstd::slice::slice_to_vec(ext_bytes_as_slice(bytes))
}

/// Law: a full-range slice of a buffer holding `b` selects exactly `b`, so
/// copying a byte sequence into a buffer and slicing it whole gives the
/// sequence back.
pub proof fn lemma_full_range_slice(b: Seq<u8>)
    ensures
        clamped_range(b, 0, b.len() as int) == b,
{
    assert(clamped_range(b, 0, b.len() as int) =~= b);
}

/// Law: slicing with any start/stop pair yields a sequence whose length is
/// the clamped stop minus the clamped start; inverted or out-of-range
/// pairs are not errors.
pub proof fn lemma_clamped_range_len(b: Seq<u8>, start: int, stop: int)
    requires
        0 <= start,
        0 <= stop,
    ensures
        ({
            let stop_c = if stop > b.len() {
                b.len() as int
            } else {
                stop
            };
            let start_c = if start > stop_c {
                stop_c
            } else {
                start
            };
            clamped_range(b, start, stop).len() == stop_c - start_c
        }),
{
}

} // verus!
