use bytestr::buffer::bytes_base64_decode;
use bytestr::buffer::bytes_base64_encode;
use bytestr::buffer::bytes_clone;
use bytestr::buffer::bytes_copy_from_slice;
use bytestr::buffer::bytes_from_bstr;
use bytestr::buffer::bytes_from_static;
use bytestr::buffer::bytes_len;
use bytestr::buffer::bytes_new;
use bytestr::buffer::bytes_release;
use bytestr::buffer::bytes_slice;
use bytestr::buffer::bytes_swap;
use bytestr::buffer::bytes_to_vec;
use bytestr::ext::BStr;
use bytestr::text::bstr_clone;
use bytestr::text::bstr_dup_utf16;
use bytestr::text::bstr_dup_utf32;
use bytestr::text::bstr_dup_utf8;
use bytestr::text::bstr_from_bytes;
use bytestr::text::bstr_from_static;
use bytestr::text::bstr_from_utf16;
use bytestr::text::bstr_from_utf32;
use bytestr::text::bstr_from_utf8;
use bytestr::text::bstr_len;
use bytestr::text::bstr_new;
use bytestr::text::bstr_release;
use bytestr::text::bstr_swap;

/// The string's UTF-8 bytes, read back through the exported duplicate
/// (terminator stripped).
fn text_bytes(s: &BStr) -> Vec<u8> {
    let mut v = bstr_dup_utf8(Some(s)).unwrap();
    assert_eq!(v.pop(), Some(0));
    v
}

#[test]
fn copy_then_full_range_slice_is_identity() {
    let data = b"some plain bytes";
    let b = bytes_copy_from_slice(Some(data));
    let n = bytes_len(&b);
    assert_eq!(n, data.len());
    let s = bytes_slice(Some(&b), 0, n);
    assert_eq!(bytes_to_vec(&s), data.to_vec());
}

#[test]
fn clone_then_release_clone_keeps_original() {
    let b = bytes_copy_from_slice(Some(b"abc".as_slice()));
    let mut c = bytes_clone(Some(&b));
    assert_eq!(bytes_to_vec(&c), b"abc".to_vec());
    bytes_release(&mut c);
    assert_eq!(bytes_len(&c), 0);
    assert_eq!(bytes_to_vec(&b), b"abc".to_vec());
}

#[test]
fn slice_clamps_out_of_range_and_inverted_pairs() {
    let b = bytes_copy_from_slice(Some(&[10u8, 20, 30, 40, 50][..]));
    assert_eq!(bytes_to_vec(&bytes_slice(Some(&b), 1, 3)), vec![20, 30]);
    // stop beyond the end clamps to the length
    assert_eq!(bytes_to_vec(&bytes_slice(Some(&b), 3, 10)), vec![40, 50]);
    // inverted pair degrades to empty
    assert_eq!(bytes_len(&bytes_slice(Some(&b), 4, 2)), 0);
    // start beyond the end degrades to empty
    assert_eq!(bytes_len(&bytes_slice(Some(&b), 9, 9)), 0);
    assert_eq!(bytes_to_vec(&bytes_slice(Some(&b), 0, 5)), vec![10, 20, 30, 40, 50]);
}

#[test]
fn string_to_bytes_and_back_round_trip() {
    let s = bstr_from_static(Some("héllo"));
    let b = bytes_from_bstr(Some(&s));
    assert_eq!(bytes_to_vec(&b), "héllo".as_bytes().to_vec());
    let s2 = bstr_from_bytes(Some(&b));
    assert_eq!(text_bytes(&s2), text_bytes(&s));
}

#[test]
fn base64_round_trip() {
    for data in [
        &b""[..],
        &b"f"[..],
        &b"fo"[..],
        &b"foo"[..],
        &b"hello"[..],
        &[0u8, 255, 1, 2, 3, 128][..],
    ] {
        let b = bytes_copy_from_slice(Some(data));
        let text = bytes_base64_encode(Some(&b));
        let back = bytes_base64_decode(Some(&text));
        assert_eq!(bytes_to_vec(&back), data.to_vec());
    }
}

#[test]
fn base64_known_vector() {
    let b = bytes_copy_from_slice(Some(b"hello".as_slice()));
    let text = bytes_base64_encode(Some(&b));
    assert_eq!(text_bytes(&text), b"aGVsbG8=".to_vec());
}

#[test]
fn base64_decode_failure_yields_empty() {
    let not_base64 = bstr_from_static(Some("!!!"));
    let b = bytes_base64_decode(Some(&not_base64));
    assert_eq!(bytes_len(&b), 0);
}

#[test]
fn dup_utf8_appends_terminator() {
    let s = bstr_from_static(Some("héllo"));
    let v = bstr_dup_utf8(Some(&s)).unwrap();
    assert_eq!(v.len(), bstr_len(&s) + 1);
    assert_eq!(v[v.len() - 1], 0);
    assert_eq!(&v[..v.len() - 1], "héllo".as_bytes());
}

#[test]
fn invalid_utf8_repairs_with_replacement_character() {
    let s = bstr_from_utf8(Some(&[0x66u8, 0x80, 0x6F][..]));
    assert_eq!(text_bytes(&s), "f\u{FFFD}o".as_bytes().to_vec());
    let lone = bstr_from_utf8(Some(&[0x80u8][..]));
    assert_eq!(text_bytes(&lone), "\u{FFFD}".as_bytes().to_vec());
    // the same repair on the buffer path
    let b = bytes_copy_from_slice(Some(&[0x66u8, 0x80, 0x6F][..]));
    let s2 = bstr_from_bytes(Some(&b));
    assert_eq!(text_bytes(&s2), "f\u{FFFD}o".as_bytes().to_vec());
}

#[test]
fn dup_utf16_of_hello_with_accent() {
    let s = bstr_from_utf8(Some("héllo".as_bytes()));
    assert_eq!(bstr_len(&s), 6);
    let e = bstr_dup_utf16(Some(&s)).unwrap();
    assert_eq!(e.units, vec![0x68u16, 0xE9, 0x6C, 0x6C, 0x6F, 0]);
    assert!(!e.shrink);
}

#[test]
fn dup_utf16_shrink_threshold() {
    // '€' takes three UTF-8 bytes and one UTF-16 unit, so n of them leave
    // the unit count 2n under the byte length; the threshold is 32.
    let s16 = bstr_from_utf8(Some("€".repeat(16).as_bytes()));
    assert!(bstr_dup_utf16(Some(&s16)).unwrap().shrink);
    let s15 = bstr_from_utf8(Some("€".repeat(15).as_bytes()));
    assert!(!bstr_dup_utf16(Some(&s15)).unwrap().shrink);
}

#[test]
fn dup_utf32_units_and_shrink_threshold() {
    let s = bstr_from_utf8(Some("a😀".as_bytes()));
    let e = bstr_dup_utf32(Some(&s)).unwrap();
    assert_eq!(e.units, vec![0x61u32, 0x1F600, 0]);
    assert!(!e.shrink);
    // '€': three UTF-8 bytes, one 32-bit unit; the threshold is 16.
    let s8 = bstr_from_utf8(Some("€".repeat(8).as_bytes()));
    assert!(bstr_dup_utf32(Some(&s8)).unwrap().shrink);
    let s7 = bstr_from_utf8(Some("€".repeat(7).as_bytes()));
    assert!(!bstr_dup_utf32(Some(&s7)).unwrap().shrink);
}

#[test]
fn utf16_decoding_pairs_and_lone_surrogates() {
    let smile = bstr_from_utf16(Some(&[0xD83Du16, 0xDE00][..]));
    assert_eq!(text_bytes(&smile), "😀".as_bytes().to_vec());
    let lone = bstr_from_utf16(Some(&[0xD800u16, 0x61][..]));
    assert_eq!(text_bytes(&lone), "\u{FFFD}a".as_bytes().to_vec());
    let plain = bstr_from_utf16(Some(&[0x68u16, 0xE9, 0x6C][..]));
    assert_eq!(text_bytes(&plain), "hél".as_bytes().to_vec());
}

#[test]
fn utf32_decoding_and_invalid_scalar_policy() {
    let plain = bstr_from_utf32(Some(&[0x61u32, 0x62][..]));
    assert_eq!(text_bytes(&plain), b"ab".to_vec());
    let smile = bstr_from_utf32(Some(&[0x1F600u32][..]));
    assert_eq!(text_bytes(&smile), "😀".as_bytes().to_vec());
    // a surrogate-range unit is not a scalar value: replacement character
    let bad = bstr_from_utf32(Some(&[0xD800u32, 0x61][..]));
    assert_eq!(text_bytes(&bad), "\u{FFFD}a".as_bytes().to_vec());
    let too_big = bstr_from_utf32(Some(&[0x110000u32][..]));
    assert_eq!(text_bytes(&too_big), "\u{FFFD}".as_bytes().to_vec());
}

#[test]
fn absent_inputs_yield_empty_values() {
    assert_eq!(bytes_len(&bytes_new()), 0);
    assert_eq!(bytes_len(&bytes_from_static(None)), 0);
    assert_eq!(bytes_len(&bytes_from_bstr(None)), 0);
    assert_eq!(bytes_len(&bytes_copy_from_slice(None)), 0);
    assert_eq!(bytes_len(&bytes_slice(None, 0, 10)), 0);
    assert_eq!(bytes_len(&bytes_clone(None)), 0);
    assert_eq!(bytes_len(&bytes_base64_decode(None)), 0);
    assert_eq!(bstr_len(&bytes_base64_encode(None)), 0);
    assert_eq!(bstr_len(&bstr_new()), 0);
    assert_eq!(bstr_len(&bstr_from_bytes(None)), 0);
    assert_eq!(bstr_len(&bstr_from_static(None)), 0);
    assert_eq!(bstr_len(&bstr_from_utf8(None)), 0);
    assert_eq!(bstr_len(&bstr_from_utf16(None)), 0);
    assert_eq!(bstr_len(&bstr_from_utf32(None)), 0);
    assert_eq!(bstr_len(&bstr_clone(None)), 0);
    assert!(bstr_dup_utf8(None).is_none());
    assert!(bstr_dup_utf16(None).is_none());
    assert!(bstr_dup_utf32(None).is_none());
}

#[test]
fn copy_of_empty_region_is_empty() {
    let b = bytes_copy_from_slice(Some(&[][..]));
    assert_eq!(bytes_len(&b), 0);
}

#[test]
fn static_construction_wraps_without_copy_semantics() {
    static DATA: [u8; 4] = [1, 2, 3, 4];
    let b = bytes_from_static(Some(&DATA));
    assert_eq!(bytes_to_vec(&b), vec![1, 2, 3, 4]);
    let s = bstr_from_static(Some("static text"));
    assert_eq!(text_bytes(&s), b"static text".to_vec());
}

#[test]
fn swap_exchanges_slots() {
    let mut a = bytes_copy_from_slice(Some(b"aa".as_slice()));
    let mut b = bytes_copy_from_slice(Some(b"bbb".as_slice()));
    bytes_swap(&mut a, &mut b);
    assert_eq!(bytes_to_vec(&a), b"bbb".to_vec());
    assert_eq!(bytes_to_vec(&b), b"aa".to_vec());

    let mut x = bstr_from_static(Some("x"));
    let mut y = bstr_from_static(Some("yy"));
    bstr_swap(&mut x, &mut y);
    assert_eq!(text_bytes(&x), b"yy".to_vec());
    assert_eq!(text_bytes(&y), b"x".to_vec());
}

#[test]
fn release_empties_the_slot() {
    let mut s = bstr_from_static(Some("text"));
    bstr_release(&mut s);
    assert_eq!(bstr_len(&s), 0);
    let clone_of_released = bstr_clone(Some(&s));
    assert_eq!(bstr_len(&clone_of_released), 0);
}

#[test]
fn valid_utf8_bytes_take_the_zero_copy_path_unchanged() {
    let b = bytes_copy_from_slice(Some("😀 and text".as_bytes()));
    let s = bstr_from_bytes(Some(&b));
    assert_eq!(text_bytes(&s), "😀 and text".as_bytes().to_vec());
}
