//! Trusted declarations for the outside crates that hold the data:
//! `bytes` (the reference-counted byte buffer), `bytestring` (the UTF-8
//! validated string over such a buffer) and `base64` (the codec).
//!
//! Each wrapper makes exactly one outside call; its contract states what
//! that call's source and documentation promise, over the two content
//! views `bytes_view` and `str_chars`.

use vstd::prelude::*;
use vstd::utf8::decode_utf8;
use vstd::utf8::encode_utf8;
use vstd::utf8::is_scalar;
use vstd::utf8::valid_utf8;
use crate::unicode::decode_utf16_lossy;
use crate::unicode::utf16_encode;

verus! {

#[verifier::external_type_specification]
#[verifier::external_body]
pub struct ExBytes(bytes::Bytes);

/// The managed string: a handle on `bytestring::ByteString`, held in an
/// opaque struct because Verus refuses that type's declaration (its
/// generic `PartialEq` impls conflict with vstd's). Its storage always
/// holds valid UTF-8 text.
#[verifier::external_body]
pub struct BStr {
    inner: bytestring::ByteString,
}

/// The bytes a buffer holds.
pub uninterp spec fn bytes_view(b: bytes::Bytes) -> Seq<u8>;

/// The characters a managed string holds; its storage holds their UTF-8
/// encoding, `encode_utf8(str_chars(s))`.
pub uninterp spec fn str_chars(s: BStr) -> Seq<char>;

/// What `String::from_utf8_lossy` returns: the characters decoded from the
/// given bytes, with every invalid sequence replaced by the replacement
/// character.
pub uninterp spec fn lossy_utf8(bytes: Seq<u8>) -> Seq<char>;

/// What `base64::encode` returns: the base64 text for the given bytes.
pub uninterp spec fn base64_text(bytes: Seq<u8>) -> Seq<char>;

/// What `base64::decode` returns: the bytes the given text encodes, or
/// `None` when the text is not valid base64.
pub uninterp spec fn base64_decoded(text: Seq<u8>) -> Option<Seq<u8>>;

/// Relies on `bytes::Bytes::new`: an empty buffer.
#[verifier::external_body]
pub(crate) fn ext_bytes_new() -> (r: bytes::Bytes)
    ensures
        bytes_view(r) == Seq::<u8>::empty(),
{
    bytes::Bytes::new()
}

/// Relies on `bytes::Bytes::from_static`: wraps the given slice without
/// copying it.
#[verifier::external_body]
pub(crate) fn ext_bytes_from_static(data: &'static [u8]) -> (r: bytes::Bytes)
    ensures
        bytes_view(r) == data@,
{
    bytes::Bytes::from_static(data)
}

/// Relies on `bytes::Bytes::copy_from_slice`: copies the slice into fresh
/// storage.
#[verifier::external_body]
pub(crate) fn ext_bytes_copy(data: &[u8]) -> (r: bytes::Bytes)
    ensures
        bytes_view(r) == data@,
{
    bytes::Bytes::copy_from_slice(data)
}

/// Relies on `Clone for bytes::Bytes`: a new handle to the same contents
/// (the storage is shared by reference count, not copied).
#[verifier::external_body]
pub(crate) fn ext_bytes_clone(b: &bytes::Bytes) -> (r: bytes::Bytes)
    ensures
        bytes_view(r) == bytes_view(*b),
{
    b.clone()
}

/// Relies on `Deref for bytes::Bytes`: a slice over the buffer's bytes.
#[verifier::external_body]
pub(crate) fn ext_bytes_as_slice(b: &bytes::Bytes) -> (r: &[u8])
    ensures
        r@ == bytes_view(*b),
{
    b.as_ref()
}

/// Relies on `bytes::Bytes::slice`: a buffer over the given sub-range,
/// sharing the original's storage. The method panics on an out-of-range
/// or inverted pair, so the bounds are required here.
#[verifier::external_body]
pub(crate) fn ext_bytes_slice(b: &bytes::Bytes, start: usize, stop: usize) -> (r: bytes::Bytes)
    requires
        start <= stop,
        stop <= bytes_view(*b).len(),
    ensures
        bytes_view(r) == bytes_view(*b).subrange(start as int, stop as int),
{
    b.slice(start..stop)
}

/// Relies on `From<Vec<u8>> for bytes::Bytes`: takes the vector's bytes.
#[verifier::external_body]
pub(crate) fn ext_bytes_from_vec(v: Vec<u8>) -> (r: bytes::Bytes)
    ensures
        bytes_view(r) == v@,
{
    bytes::Bytes::from(v)
}

/// Relies on `bytestring::ByteString::new`: an empty string.
#[verifier::external_body]
pub(crate) fn ext_bstr_new() -> (r: BStr)
    ensures
        str_chars(r) == Seq::<char>::empty(),
{
    BStr { inner: bytestring::ByteString::new() }
}

/// Relies on `Clone for bytestring::ByteString`: a new handle to the same
/// text (shared storage, reference-counted).
#[verifier::external_body]
pub(crate) fn ext_bstr_clone(s: &BStr) -> (r: BStr)
    ensures
        str_chars(r) == str_chars(*s),
{
    BStr { inner: s.inner.clone() }
}

/// Relies on `Deref for bytestring::ByteString`: the string's text.
#[verifier::external_body]
pub(crate) fn ext_bstr_as_str(s: &BStr) -> (r: &str)
    ensures
        r@ == str_chars(*s),
{
    &s.inner
}

/// Relies on `bytestring::ByteString::from_static`: wraps the given text
/// without copying it.
#[verifier::external_body]
pub(crate) fn ext_bstr_from_static(s: &'static str) -> (r: BStr)
    ensures
        str_chars(r) == s@,
{
    BStr { inner: bytestring::ByteString::from_static(s) }
}

/// Relies on `From<String> for bytestring::ByteString`: takes the string's
/// text unchanged.
#[verifier::external_body]
pub(crate) fn ext_bstr_from_string(s: String) -> (r: BStr)
    ensures
        str_chars(r) == s@,
{
    BStr { inner: bytestring::ByteString::from(s) }
}

/// Relies on `TryFrom<bytes::Bytes> for bytestring::ByteString`: succeeds
/// exactly when the buffer's bytes are valid UTF-8, and then keeps the
/// buffer as the string's storage without copying.
#[verifier::external_body]
pub(crate) fn ext_bstr_try_from_bytes(b: bytes::Bytes) -> (r: Option<BStr>)
    ensures
        r is Some <==> valid_utf8(bytes_view(b)),
        r matches Some(s) ==> str_chars(s) == decode_utf8(bytes_view(b)),
{
    match bytestring::ByteString::try_from(b) {
        Ok(inner) => Some(BStr { inner }),
        Err(_) => None,
    }
}

/// Relies on `bytestring::ByteString::into_bytes`: the string's underlying
/// buffer, holding the UTF-8 encoding of its characters.
#[verifier::external_body]
pub(crate) fn ext_bstr_into_bytes(s: BStr) -> (r: bytes::Bytes)
    ensures
        bytes_view(r) == encode_utf8(str_chars(s)),
{
    s.inner.into_bytes()
}

/// Relies on `String::from_utf8_lossy`: decodes the bytes, replacing every
/// invalid sequence with the replacement character; valid UTF-8 input is
/// returned unchanged.
#[verifier::external_body]
pub(crate) fn ext_utf8_lossy(data: &[u8]) -> (r: String)
    ensures
        r@ == lossy_utf8(data@),
        valid_utf8(data@) ==> r@ == decode_utf8(data@),
{
    String::from_utf8_lossy(data).into_owned()
}

/// Relies on `String::from_utf16_lossy`: decodes the units as UTF-16,
/// replacing every unpaired surrogate with the replacement character.
#[verifier::external_body]
pub(crate) fn ext_utf16_lossy(units: &[u16]) -> (r: String)
    ensures
        r@ == decode_utf16_lossy(units@),
{
    String::from_utf16_lossy(units)
}

/// Relies on `str::encode_utf16`: the UTF-16 code units of the text's
/// characters, in order.
#[verifier::external_body]
pub(crate) fn ext_encode_utf16(s: &str) -> (r: Vec<u16>)
    ensures
        r@ == utf16_encode(s@),
{
    s.encode_utf16().collect()
}

/// Relies on `String::from_iter`: the string holding exactly the given
/// characters, in order.
#[verifier::external_body]
pub(crate) fn ext_string_from_chars(chars: Vec<char>) -> (r: String)
    ensures
        r@ == chars@,
{
    String::from_iter(chars)
}

/// Relies on `base64::encode` and `base64::decode` (standard alphabet,
/// padded): the text encoding the buffer's bytes, which `base64::decode`
/// maps back to those bytes.
#[verifier::external_body]
pub(crate) fn ext_base64_encode(b: &bytes::Bytes) -> (r: String)
    ensures
        r@ == base64_text(bytes_view(*b)),
        base64_decoded(encode_utf8(r@)) == Some(bytes_view(*b)),
{
    base64::encode(b.as_ref())
}

/// Relies on `base64::decode`: the bytes the text encodes, or `None` when
/// the text is not valid base64.
#[verifier::external_body]
pub(crate) fn ext_base64_decode(text: &[u8]) -> (r: Option<Vec<u8>>)
    ensures
        base64_decoded(text@) == (match r {
            Some(v) => Some(v@),
            None => None::<Seq<u8>>,
        }),
{
    base64::decode(text).ok()
}

/// Relies on `char::from_u32`: `Some` exactly on Unicode scalar values,
/// returning the character with that value.
pub assume_specification[ char::from_u32 ](v: u32) -> (r: Option<char>)
    ensures
        r is Some <==> is_scalar(v),
        r matches Some(c) ==> c as u32 == v,
;

} // verus!
