use auto_encoder::auto_encode_bytes;
use auto_encoder::encode_bytes;
use auto_encoder::encode_bytes_from_language;
use auto_encoder::encoding_for_locale;
use auto_encoder::encoding_id_for_locale;
use auto_encoder::EncodingId;

#[test]
fn test_encoding_for_locale() {
    assert_eq!(encoding_for_locale("en-us"), Some(encoding_rs::UTF_8));
    assert_eq!(encoding_for_locale("zh-cn"), Some(encoding_rs::GB18030));
    assert_eq!(encoding_for_locale("ja-jp"), Some(encoding_rs::SHIFT_JIS));
    assert_eq!(encoding_for_locale("ko-kr"), Some(encoding_rs::EUC_KR));
    assert!(encoding_for_locale("unknown-locale").is_none());
}

#[test]
fn test_encode_bytes() {
    let html_content = b"hello";
    let encoded = encode_bytes(html_content, "utf-8");
    assert_eq!(encoded, "hello");

    let html_content = b"\xa1Hola!";
    let encoded = encode_bytes(html_content, "windows-1252");
    assert_eq!(encoded, "¡Hola!");

    let html_content = b"\x82\xA0";
    let encoded = encode_bytes(html_content, "shift_jis");
    assert_eq!(encoded, "\u{3042}");
}

#[test]
fn test_encode_bytes_from_language() {
    let html_content = b"hello";
    let encoded = encode_bytes_from_language(html_content, "en-us");
    assert_eq!(encoded, "hello");

    let html_content = b"\xa1Hola!";
    let encoded = encode_bytes_from_language(html_content, "es-es");
    assert_eq!(encoded, "¡Hola!");

    let html_content = b"\x82\xA0";
    let encoded = encode_bytes_from_language(html_content, "ja");
    assert_eq!(encoded, "\u{3042}");
}

#[test]
fn test_encoding_for_locale_is_case_insensitive() {
    assert_eq!(encoding_for_locale("JA-JP"), encoding_for_locale("ja-jp"));
    assert_eq!(encoding_for_locale("JA-JP"), Some(encoding_rs::SHIFT_JIS));
    assert_eq!(encoding_for_locale("Zh-Cn"), Some(encoding_rs::GB18030));
}

#[test]
fn test_encoding_id_for_locale_table() {
    assert_eq!(encoding_id_for_locale("th-th"), Some(EncodingId::Windows874));
    assert_eq!(encoding_id_for_locale("ru-ru"), Some(EncodingId::Windows1251));
    assert_eq!(encoding_id_for_locale("zh-tw"), Some(EncodingId::Big5));
    assert_eq!(encoding_id_for_locale("he-il"), Some(EncodingId::Windows1255));
    assert_eq!(encoding_id_for_locale("ja"), None);
}

#[test]
fn test_encode_bytes_unknown_label_yields_empty() {
    assert_eq!(encode_bytes(b"hello", "no-such-encoding"), "");
}

#[test]
fn test_encode_bytes_alias_label() {
    // "latin1" is an alias of windows-1252 in the label registry.
    assert_eq!(encode_bytes(b"\xa1", "latin1"), "¡");
}

#[test]
fn test_encode_bytes_replaces_malformed_sequences() {
    // 0xFF never opens a valid UTF-8 sequence; it is replaced, not fatal.
    let encoded = encode_bytes(b"ok\xFFok", "utf-8");
    assert_eq!(encoded, "ok\u{FFFD}ok");
}

#[test]
fn test_round_trip_utf8() {
    let text = "hello, käsespätzle — グリュック!";
    let (bytes, _, _) = encoding_rs::UTF_8.encode(text);
    assert_eq!(encode_bytes(&bytes, "utf-8"), text);
}

#[test]
fn test_round_trip_shift_jis() {
    let text = "こんにちは、世界!";
    let (bytes, _, _) = encoding_rs::SHIFT_JIS.encode(text);
    assert_eq!(encode_bytes(&bytes, "shift_jis"), text);
}

#[test]
fn test_round_trip_gb18030() {
    let text = "你好，世界！";
    let (bytes, _, _) = encoding_rs::GB18030.encode(text);
    assert_eq!(encode_bytes(&bytes, "gb18030"), text);
}

#[test]
fn test_auto_encode_bytes_empty_input() {
    assert_eq!(auto_encode_bytes(b""), "");
}

#[test]
fn test_auto_encode_bytes_uses_declared_charset() {
    let mut content = b"<meta charset=\"shift_jis\">".to_vec();
    content.extend_from_slice(b"\x82\xA0");
    assert_eq!(auto_encode_bytes(&content), "<meta charset=\"shift_jis\">\u{3042}");
}

#[test]
fn test_auto_encode_bytes_unrecognized_declared_charset_falls_through() {
    let content = b"<meta charset=\"not-a-real-charset\">text";
    assert_eq!(auto_encode_bytes(content), "<meta charset=\"not-a-real-charset\">text");
}

#[test]
fn test_auto_encode_bytes_plain_text() {
    assert_eq!(auto_encode_bytes(b"just plain ascii"), "just plain ascii");
}

#[test]
fn test_utf8_byte_order_mark_wins_without_locale() {
    let content = b"\xEF\xBB\xBFhi";
    // The mark resolves the encoding and does not appear in the output.
    assert_eq!(encode_bytes_from_language(content, "zz-zz"), "hi");
    assert_eq!(auto_encode_bytes(content), "hi");
}

#[test]
fn test_utf16le_byte_order_mark_wins_without_locale() {
    let content = b"\xFF\xFEh\x00i\x00";
    assert_eq!(encode_bytes_from_language(content, "zz-zz"), "hi");
}

#[test]
fn test_guess_path_on_plain_ascii() {
    assert_eq!(encode_bytes_from_language(b"hello", "unknown-locale"), "hello");
}

#[test]
fn test_decode_auto_output_redecodes_to_itself() {
    let samples: Vec<Vec<u8>> = vec![
        b"plain ascii text".to_vec(),
        b"<meta charset=\"windows-1252\">caf\xe9".to_vec(),
        b"\xEF\xBB\xBFwith a byte-order mark".to_vec(),
        b"\x82\xA0\x82\xA2".to_vec(),
    ];
    for content in samples {
        let out = auto_encode_bytes(&content);
        assert_eq!(encode_bytes(out.as_bytes(), "utf-8"), out);
    }
}

#[test]
fn test_buffer_tier_boundaries_decode_identically() {
    for n in [998usize, 999, 1000, 1001, 14999, 15000, 15001, 15002] {
        let content = vec![b'a'; n];
        let expected: String = std::iter::repeat('a').take(n).collect();
        assert_eq!(encode_bytes(&content, "utf-8"), expected);
        assert_eq!(encode_bytes_from_language(&content, "en-us"), expected);
    }
}

#[test]
fn test_multi_byte_sequence_across_buffer_boundary() {
    // A two-byte sequence that straddles the staging-buffer boundary must
    // come out whole: the flush pass resolves the decoder's partial state.
    for n in [998usize, 1022, 1023, 1024, 2046, 2047, 2048] {
        let mut content = vec![b'a'; n];
        content.extend_from_slice(b"\x82\xA0");
        let mut expected: String = std::iter::repeat('a').take(n).collect();
        expected.push('\u{3042}');
        assert_eq!(encode_bytes(&content, "shift_jis"), expected);
    }
}

#[test]
fn test_encode_bytes_empty_input() {
    assert_eq!(encode_bytes(b"", "utf-8"), "");
    assert_eq!(encode_bytes_from_language(b"", "ja-jp"), "");
}
