//! Decoding the bytes of a text file: UTF-8 (with or without a byte-order
//! mark), falling back to GBK for older files.

use vstd::prelude::*;
use vstd::utf8::{codepoint_width_3, decode_first_scalar, decode_utf8, encode_utf8, valid_utf8};

verus! {

/// What `encoding_rs::GBK.decode` produces for `bytes` (which, as that
/// function does, follows a UTF-8 or UTF-16 byte-order mark instead).
pub uninterp spec fn gbk_decoded(bytes: Seq<u8>) -> Seq<char>;

/// What `String::from_utf8_lossy` produces for `bytes`.
pub uninterp spec fn utf8_lossy_decoded(bytes: Seq<u8>) -> Seq<char>;

/// Whether `bytes` starts with the UTF-8 byte-order mark EF BB BF.
pub open spec fn has_bom(bytes: Seq<u8>) -> bool {
    bytes.len() >= 3 && bytes[0] == 0xEFu8 && bytes[1] == 0xBBu8 && bytes[2] == 0xBFu8
}

/// The text of a file's bytes: after a UTF-8 byte-order mark, the rest
/// read as UTF-8 (invalid sequences replaced); else valid UTF-8 as is;
/// else GBK.
pub open spec fn decoded_text(bytes: Seq<u8>) -> Seq<char> {
    if has_bom(bytes) {
        utf8_lossy_decoded(bytes.skip(3))
    } else if valid_utf8(bytes) {
        decode_utf8(bytes)
    } else {
        gbk_decoded(bytes)
    }
}

/// Whether GBK decoding of that many bytes fits its output buffer in memory
/// (at most three bytes of output per input byte, plus one).
pub open spec fn gbk_decodable_len(n: nat) -> bool {
    3 * n + 1 <= isize::MAX
}

/// Whether a file's bytes can be decoded: a BOM or valid UTF-8 always can;
/// GBK needs its output buffer to fit.
pub open spec fn decodable(bytes: Seq<u8>) -> bool {
    has_bom(bytes) || valid_utf8(bytes) || gbk_decodable_len(bytes.len())
}

/// Decodes `bytes` with `encoding_rs::GBK.decode`. Claimed: the result is
/// the name `gbk_decoded` of the bytes, and no panic while three bytes of
/// output per input byte, plus one, fit in `isize` (the function's only
/// panic is its output buffer outgrowing that). What the decoding is, is
/// left to the name.
#[verifier::external_body]
fn decode_gbk(bytes: &[u8]) -> (r: String)
    requires
        gbk_decodable_len(bytes@.len()),
    ensures
        r@ == gbk_decoded(bytes@),
{
    let (text, _, _) = encoding_rs::GBK.decode(bytes);
    text.into_owned()
}

/// Decodes `bytes` with `String::from_utf8_lossy`. Claimed: the result is
/// the name `utf8_lossy_decoded` of the bytes and, as that function
/// documents, exactly the decoded text when the bytes are valid UTF-8;
/// how invalid sequences are replaced is left to the name.
#[verifier::external_body]
fn decode_utf8_lossy(bytes: &[u8]) -> (r: String)
    ensures
        r@ == utf8_lossy_decoded(bytes@),
        valid_utf8(bytes@) ==> r@ == decode_utf8(bytes@),
{
    String::from_utf8_lossy(bytes).into_owned()
}

/// Decodes `bytes` with `std::str::from_utf8`. Claimed: a text exactly when
/// the bytes are valid UTF-8, and then the text they encode.
#[verifier::external_body]
fn decode_utf8_strict(bytes: &[u8]) -> (r: Option<String>)
    ensures
        r is Some <==> valid_utf8(bytes@),
        r matches Some(s) ==> s@ == decode_utf8(bytes@),
{
    match std::str::from_utf8(bytes) {
        Ok(s) => Some(s.to_string()),
        Err(_) => None,
    }
}

/// The text of a file's bytes (see `decoded_text`).
pub fn decode_text_file(bytes: &[u8]) -> (r: String)
    requires
        decodable(bytes@),
    ensures
        r@ == decoded_text(bytes@),
        has_bom(bytes@) && valid_utf8(bytes@.skip(3)) ==> r@ == decode_utf8(bytes@.skip(3)),
{
    let n = bytes.len();
    if n >= 3 && bytes[0] == 0xEFu8 && bytes[1] == 0xBBu8 && bytes[2] == 0xBFu8 {
        let rest = &bytes[3..n];
        assert(rest@ =~= bytes@.skip(3));
        return decode_utf8_lossy(rest);
    }
    match decode_utf8_strict(bytes) {
        Some(s) => s,
        None => decode_gbk(bytes),
    }
}

/// Whether `decode_text_file` can decode `bytes` (see `decodable`).
pub fn can_decode(bytes: &[u8]) -> (r: bool)
    ensures
        r == decodable(bytes@),
{
    let n = bytes.len();
    if n >= 3 && bytes[0] == 0xEFu8 && bytes[1] == 0xBBu8 && bytes[2] == 0xBFu8 {
        return true;
    }
    if (n as u128) * 3 + 1 <= isize::MAX as u128 {
        return true;
    }
    decode_utf8_strict(bytes).is_some()
}

/// Law: the UTF-8 encoding of a text that does not begin with U+FEFF
/// decodes to that text.
pub proof fn utf8_text_round_trip(s: Seq<char>)
    requires
        s.len() == 0 || s[0] != '\u{feff}',
    ensures
        decodable(encode_utf8(s)),
        decoded_text(encode_utf8(s)) == s,
{
    vstd::utf8::encode_utf8_valid_utf8(s);
    vstd::utf8::encode_utf8_decode_utf8(s);
    if s.len() > 0 {
        vstd::utf8::encode_utf8_first_scalar(s);
    }
    if has_bom(encode_utf8(s)) {
        let b = encode_utf8(s);
        assert(s.len() > 0) by {
            if s.len() == 0 {
                assert(b.len() == 0);
            }
        }
        let (b0, b1, b2) = (b[0], b[1], b[2]);
        assert(codepoint_width_3(b0, b1, b2) == 0xfeffu32) by (bit_vector)
            requires
                b0 == 0xEFu8,
                b1 == 0xBBu8,
                b2 == 0xBFu8,
        ;
        assert(decode_first_scalar(b) == 0xfeffu32);
        vstd::utf8::char_u32_cast(s[0], 0xfeffu32);
        assert(s[0] == '\u{feff}');
    }
}

/// Law: how a file's bytes are read. Bytes starting with EF BB BF are
/// the rest read as UTF-8 (invalid sequences replaced); other bytes that
/// are valid UTF-8 are their UTF-8 text; every other byte sequence, of any
/// length, is read as GBK, whole.
pub proof fn decoding_is_bom_then_utf8_then_gbk(bytes: Seq<u8>)
    ensures
        bytes.len() >= 3 && bytes[0] == 0xEFu8 && bytes[1] == 0xBBu8 && bytes[2] == 0xBFu8
            ==> decoded_text(bytes) == utf8_lossy_decoded(bytes.subrange(3, bytes.len() as int)),
        !(bytes.len() >= 3 && bytes[0] == 0xEFu8 && bytes[1] == 0xBBu8 && bytes[2] == 0xBFu8)
            && valid_utf8(bytes) ==> decoded_text(bytes) == decode_utf8(bytes),
        !(bytes.len() >= 3 && bytes[0] == 0xEFu8 && bytes[1] == 0xBBu8 && bytes[2] == 0xBFu8)
            && !valid_utf8(bytes) ==> decoded_text(bytes) == gbk_decoded(bytes),
{
    assert(bytes.skip(3) =~= bytes.subrange(3, bytes.len() as int));
}

} // verus!
