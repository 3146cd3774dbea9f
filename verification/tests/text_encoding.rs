use hushreader::decode::{can_decode, decode_text_file};
use hushreader::text::{
    chars_of, decimal_string, parse_u32, signed_decimal_string, strip_prefix, trim,
};
use hushreader::urlencode::urlencode;

#[test]
fn urlencode_keeps_unreserved_characters() {
    assert_eq!(urlencode("AZaz09-_.~"), "AZaz09-_.~");
}

#[test]
fn urlencode_escapes_spaces_and_delimiters() {
    assert_eq!(urlencode("a b&c=d"), "a%20b%26c%3Dd");
    assert_eq!(urlencode("https://x.com/a?b=1"), "https%3A%2F%2Fx.com%2Fa%3Fb%3D1");
}

#[test]
fn urlencode_escapes_utf8_bytes_in_upper_case() {
    assert_eq!(urlencode("你好"), "%E4%BD%A0%E5%A5%BD");
    assert_eq!(urlencode("三体"), "%E4%B8%89%E4%BD%93");
}

#[test]
fn urlencode_of_empty_text_is_empty() {
    assert_eq!(urlencode(""), "");
}

#[test]
fn urlencode_output_decodes_back() {
    let text = "书名 / Ünïcode + 100%";
    let encoded = urlencode(text);
    assert!(encoded
        .chars()
        .all(|c| c == '%' || c.is_ascii_alphanumeric() || "-_.~".contains(c)));
    let bytes = encoded.as_bytes();
    let mut decoded = Vec::new();
    let mut i = 0;
    while i < bytes.len() {
        if bytes[i] == b'%' {
            let hex = std::str::from_utf8(&bytes[i + 1..i + 3]).unwrap();
            decoded.push(u8::from_str_radix(hex, 16).unwrap());
            i += 3;
        } else {
            decoded.push(bytes[i]);
            i += 1;
        }
    }
    assert_eq!(String::from_utf8(decoded).unwrap(), text);
}

#[test]
fn decode_plain_utf8() {
    assert_eq!(decode_text_file("第一章 hello".as_bytes()), "第一章 hello");
}

#[test]
fn decode_strips_utf8_bom() {
    let mut bytes = vec![0xEF, 0xBB, 0xBF];
    bytes.extend_from_slice("正文".as_bytes());
    assert_eq!(decode_text_file(&bytes), "正文");
}

#[test]
fn decode_bom_with_invalid_rest_replaces_bad_bytes() {
    assert_eq!(decode_text_file(&[0xEF, 0xBB, 0xBF, b'a', 0xFF]), "a\u{FFFD}");
}

#[test]
fn decode_falls_back_to_gbk() {
    assert_eq!(decode_text_file(&[0xD6, 0xD0, 0xCE, 0xC4]), "中文");
}

#[test]
fn decode_gbk_fallback_follows_utf16_bom() {
    assert_eq!(decode_text_file(&[0xFF, 0xFE, 0x41, 0x00]), "A");
}

#[test]
fn decode_empty_file() {
    assert_eq!(decode_text_file(&[]), "");
}

#[test]
fn decimal_rendering() {
    assert_eq!(decimal_string(0), "0");
    assert_eq!(decimal_string(7765), "7765");
    assert_eq!(decimal_string(u64::MAX), "18446744073709551615");
    assert_eq!(signed_decimal_string(-1), "-1");
    assert_eq!(signed_decimal_string(i64::MIN), "-9223372036854775808");
    assert_eq!(signed_decimal_string(42), "42");
}

#[test]
fn trim_removes_unicode_white_space() {
    assert_eq!(trim("  \t1234\r\n"), "1234");
    assert_eq!(trim("\u{3000}书\u{a0}"), "书");
    assert_eq!(trim(" \n "), "");
    assert_eq!(trim("a b"), "a b");
    for s in ["", " x ", "\u{2028}y\u{85}", "\u{200b}z"] {
        assert_eq!(trim(s), s.trim());
    }
}

#[test]
fn strip_prefix_matches_std() {
    assert_eq!(strip_prefix("data: {}", "data:").as_deref(), Some(" {}"));
    assert_eq!(strip_prefix("event: x", "data:"), None);
    assert_eq!(strip_prefix("da", "data:"), None);
    assert_eq!(strip_prefix("data:", "data:").as_deref(), Some(""));
}

#[test]
fn parse_u32_matches_std() {
    for s in ["0", "42", "+42", "007", "4294967295", "4294967296", "", "+", "-1", "1 ", "12a", "++1", "99999999999"] {
        assert_eq!(parse_u32(s), s.parse::<u32>().ok(), "input {:?}", s);
    }
}

#[test]
fn chars_of_lists_characters() {
    assert_eq!(chars_of("a书"), vec!['a', '书']);
}

#[test]
fn decimal_text_parses_back() {
    for n in [0u32, 9, 10, 7765, u32::MAX] {
        assert_eq!(parse_u32(&decimal_string(n as u64)), Some(n));
    }
}

#[test]
fn ordinary_files_can_be_decoded() {
    assert!(can_decode(&[]));
    assert!(can_decode("文本".as_bytes()));
    assert!(can_decode(&[0xEF, 0xBB, 0xBF, 0xFF]));
    assert!(can_decode(&[0xD6, 0xD0, 0xCE, 0xC4]));
}
