//! Percent-encoding of query parameters sent to the back-end: every byte of
//! the UTF-8 text except the unreserved characters becomes `%XX`.

use vstd::prelude::*;
use vstd::utf8::{decode_utf8, encode_utf8};
use crate::text::{digit_char, push_char};

verus! {

/// The bytes left as they are: ASCII letters, digits and `-_.~`.
pub open spec fn is_unreserved(b: u8) -> bool {
    ||| 65 <= b <= 90
    ||| 97 <= b <= 122
    ||| 48 <= b <= 57
    ||| b == 45
    ||| b == 95
    ||| b == 46
    ||| b == 126
}

/// The unreserved characters, as characters.
pub open spec fn is_unreserved_char(c: char) -> bool {
    ||| 'A' <= c <= 'Z'
    ||| 'a' <= c <= 'z'
    ||| '0' <= c <= '9'
    ||| c == '-'
    ||| c == '_'
    ||| c == '.'
    ||| c == '~'
}

/// Upper-case hexadecimal digit of a value below sixteen.
pub open spec fn hex_upper(d: nat) -> char {
    if d < 10 {
        digit_char(d)
    } else {
        ((55 + d) as u32) as char
    }
}

/// How one byte is written: itself when unreserved, else `%` and two
/// upper-case hexadecimal digits.
pub open spec fn encode_byte(b: u8) -> Seq<char> {
    if is_unreserved(b) {
        seq![(b as u32) as char]
    } else {
        seq!['%', hex_upper((b / 16) as nat), hex_upper((b % 16) as nat)]
    }
}

/// The percent-encoding of a byte sequence.
pub open spec fn percent_encoded(bytes: Seq<u8>) -> Seq<char>
    decreases bytes.len(),
{
    if bytes.len() == 0 {
        Seq::empty()
    } else {
        encode_byte(bytes[0]) + percent_encoded(bytes.drop_first())
    }
}

/// The value of a hexadecimal digit of either case.
pub open spec fn hex_value(c: char) -> Option<nat> {
    if '0' <= c <= '9' {
        Some(((c as u32) - 48) as nat)
    } else if 'A' <= c <= 'F' {
        Some(((c as u32) - 55) as nat)
    } else if 'a' <= c <= 'f' {
        Some(((c as u32) - 87) as nat)
    } else {
        None
    }
}

/// Decoding of a percent-encoded text: `%XX` gives the byte `XX`, an
/// unreserved character gives itself, anything else fails.
pub open spec fn percent_decoded(cs: Seq<char>) -> Option<Seq<u8>>
    decreases cs.len(),
{
    if cs.len() == 0 {
        Some(Seq::empty())
    } else if cs[0] == '%' {
        if cs.len() >= 3 && hex_value(cs[1]) is Some && hex_value(cs[2]) is Some {
            match percent_decoded(cs.skip(3)) {
                Some(rest) => Some(
                    seq![(hex_value(cs[1])->0 * 16 + hex_value(cs[2])->0) as u8] + rest,
                ),
                None => None,
            }
        } else {
            None
        }
    } else if is_unreserved_char(cs[0]) {
        match percent_decoded(cs.drop_first()) {
            Some(rest) => Some(seq![cs[0] as u8] + rest),
            None => None,
        }
    } else {
        None
    }
}

/// The characters that can appear in an encoded text.
pub open spec fn is_url_safe(c: char) -> bool {
    ||| c == '%'
    ||| is_unreserved_char(c)
}

fn hex_digit(d: u8) -> (c: char)
    requires
        d < 16,
    ensures
        c == hex_upper(d as nat),
{
    if d < 10 {
        (48u8 + d) as char
    } else {
        (55u8 + d) as char
    }
}

/// Percent-encodes the UTF-8 bytes of `s` for use in a query string.
pub fn urlencode(s: &str) -> (r: String)
    ensures
        r@ == percent_encoded(encode_utf8(s@)),
{
    let bytes = s.as_bytes();
    let ghost all = encode_utf8(s@);
    let mut out = String::new();
    let n = bytes.len();
    let mut i: usize = 0;
    assert(all.skip(0) =~= all);
    while i < n
        invariant
            bytes@ == all,
            n == bytes@.len(),
            i <= n,
            out@ + percent_encoded(all.skip(i as int)) == percent_encoded(all),
        decreases n - i,
    {
        let b = bytes[i];
        assert(all.skip(i as int).drop_first() =~= all.skip(i + 1));
        let ghost before = out@;
        if (65 <= b && b <= 90) || (97 <= b && b <= 122) || (48 <= b && b <= 57) || b == 45 || b
            == 95 || b == 46 || b == 126 {
            push_char(&mut out, b as char);
        } else {
            push_char(&mut out, '%');
            push_char(&mut out, hex_digit(b / 16));
            push_char(&mut out, hex_digit(b % 16));
        }
        assert(out@ =~= before + encode_byte(b));
        assert(out@ + percent_encoded(all.skip(i + 1)) =~= before + percent_encoded(
            all.skip(i as int),
        ));
        i = i + 1;
    }
    assert(percent_encoded(all.skip(n as int)) =~= Seq::<char>::empty());
    assert(out@ =~= percent_encoded(all));
    out
}

proof fn lemma_hex_upper_value(d: nat)
    requires
        d < 16,
    ensures
        hex_value(hex_upper(d)) == Some(d),
{
}

proof fn lemma_encode_byte_decodes(b: u8, rest: Seq<char>)
    ensures
        percent_decoded(encode_byte(b) + rest) == match percent_decoded(rest) {
            Some(tail) => Some(seq![b] + tail),
            None => None,
        },
{
    let e = encode_byte(b) + rest;
    if is_unreserved(b) {
        assert(e.drop_first() =~= rest);
        assert(((b as u32) as char) as u8 == b);
    } else {
        lemma_hex_upper_value((b / 16) as nat);
        lemma_hex_upper_value((b % 16) as nat);
        assert(e.skip(3) =~= rest);
        assert(e[0] == '%');
    }
}

/// Law: decoding the encoding of any bytes gives the bytes back.
pub proof fn percent_decode_inverts_encode(bytes: Seq<u8>)
    ensures
        percent_decoded(percent_encoded(bytes)) == Some(bytes),
    decreases bytes.len(),
{
    if bytes.len() > 0 {
        percent_decode_inverts_encode(bytes.drop_first());
        lemma_encode_byte_decodes(bytes[0], percent_encoded(bytes.drop_first()));
        assert(seq![bytes[0]] + bytes.drop_first() =~= bytes);
    }
}

/// Law: texts with the same encoding are equal, so the back-end can
/// always recover the text that was sent.
pub proof fn urlencode_injective(s1: Seq<char>, s2: Seq<char>)
    requires
        percent_encoded(encode_utf8(s1)) == percent_encoded(encode_utf8(s2)),
    ensures
        s1 == s2,
{
    percent_decode_inverts_encode(encode_utf8(s1));
    percent_decode_inverts_encode(encode_utf8(s2));
    vstd::utf8::encode_utf8_decode_utf8(s1);
    vstd::utf8::encode_utf8_decode_utf8(s2);
}

/// Law: an encoded text holds only unreserved characters and `%XX`.
pub proof fn percent_encoded_is_url_safe(bytes: Seq<u8>)
    ensures
        forall|i: int|
            0 <= i < percent_encoded(bytes).len() ==> #[trigger] is_url_safe(
                percent_encoded(bytes)[i],
            ),
    decreases bytes.len(),
{
    if bytes.len() > 0 {
        percent_encoded_is_url_safe(bytes.drop_first());
        let head = encode_byte(bytes[0]);
        let tail = percent_encoded(bytes.drop_first());
        assert forall|i: int| 0 <= i < percent_encoded(bytes).len() implies #[trigger] is_url_safe(
            percent_encoded(bytes)[i],
        ) by {
            if i < head.len() {
                assert(percent_encoded(bytes)[i] == head[i]);
                if is_unreserved(bytes[0]) {
                    assert(((bytes[0] as u32) as char) as u32 == bytes[0] as u32);
                    assert(is_unreserved_char(head[0]));
                } else if i > 0 {
                    let d = if i == 1 { (bytes[0] / 16) as nat } else { (bytes[0] % 16) as nat };
                    assert(head[i] == hex_upper(d));
                }
            } else {
                assert(percent_encoded(bytes)[i] == tail[i - head.len()]);
            }
        }
    }
}

/// Law: a text made only of unreserved characters is sent as it is.
pub proof fn unreserved_text_unchanged(s: Seq<char>)
    requires
        forall|i: int| 0 <= i < s.len() ==> is_unreserved_char(#[trigger] s[i]),
    ensures
        percent_encoded(encode_utf8(s)) == s,
    decreases s.len(),
{
    if s.len() > 0 {
        let rest = s.drop_first();
        assert forall|i: int| 0 <= i < rest.len() implies is_unreserved_char(#[trigger] rest[i]) by {
            assert(rest[i] == s[i + 1]);
        }
        unreserved_text_unchanged(rest);
        assert(vstd::utf8::is_ascii_chars(s));
        assert(vstd::utf8::is_ascii_chars(rest));
        vstd::utf8::is_ascii_chars_encode_utf8(s);
        vstd::utf8::is_ascii_chars_encode_utf8(rest);
        assert(encode_utf8(s).drop_first() =~= encode_utf8(rest));
        assert(encode_utf8(s)[0] == s[0] as u8);
        assert(((s[0] as u8) as u32) as char == s[0]);
        assert(s =~= seq![s[0]] + rest);
    }
}

} // verus!
