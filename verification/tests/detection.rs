use auto_encoder::detect_encoding;
use auto_encoder::detect_html_metadata;
use auto_encoder::detect_language;
use auto_encoder::find_subsequence;
use auto_encoder::is_binary_file;

#[test]
fn test_detect_language() {
    let mut markup = String::new();
    markup.push_str("<!DOCTYPE html><meta charset=\"utf-8\"><title>Readability Test</title>");
    markup.push_str("<h1>Reading is fun</h1><a href=\"spider.cloud\"></a>");
    markup.push_str("<pre>The content is ready for reading</pre>");

    assert_eq!(detect_language(markup.as_bytes()).is_none(), true);
}

#[test]
fn test_is_binary_file() {
    assert!(is_binary_file(&[0xFF, 0xD8, 0xFF]));
    assert!(is_binary_file(&[0x89, 0x50, 0x4E, 0x47]));
    assert!(is_binary_file(&[0x47, 0x49, 0x46, 0x38]));
    assert!(is_binary_file(&[0x42, 0x5A, 0x68]));
    assert!(!is_binary_file(&[0x00, 0x00, 0x00, 0x00]));
    assert!(!is_binary_file(&[0x01, 0x02, 0x03]));
}

#[test]
fn test_find_subsequence() {
    let haystack = b"This is a simple test.";
    let needle = b"simple";
    assert_eq!(find_subsequence(haystack, needle), Some(10));

    let haystack = b"Another test case.";
    let needle = b"test";
    assert_eq!(find_subsequence(haystack, needle), Some(8));

    let haystack = b"No match here.";
    let needle = b"impossible";
    assert_eq!(find_subsequence(haystack, needle), None);
}

#[test]
fn test_detect_language_with_html_lang_attribute() {
    let html_content = b"<html lang=\"en\"><head><title>Test</title></head><body></body></html>";
    assert_eq!(detect_language(html_content), Some("en".to_string()));
}

#[test]
fn test_detect_language_without_lang_attribute() {
    let html_content = b"<html><head><title>Test</title></head><body></body></html>";
    assert!(detect_language(html_content).is_none());
}

#[test]
fn test_detect_encoding() {
    let markup = "<!DOCTYPE html><meta charset=\"utf-8\">".to_string();
    assert!(detect_encoding(markup.as_bytes()).unwrap_or_default().to_lowercase() == "utf-8");
}

#[test]
fn test_empty_content_is_not_binary() {
    assert!(!is_binary_file(b""));
}

#[test]
fn test_every_table_magic_with_suffix_is_binary() {
    let magics: Vec<Vec<u8>> = vec![
        vec![0xFF, 0xD8, 0xFF],
        vec![0x25, 0x50, 0x44, 0x46],
        vec![0x89, 0x50, 0x4E, 0x47],
        vec![0x47, 0x49, 0x46, 0x38],
        vec![0x42, 0x4D],
        vec![0x49, 0x49, 0x2A, 0x00],
        vec![0x4D, 0x4D, 0x00, 0x2A],
        vec![0x49, 0x49, 0x2B, 0x00],
        vec![0x4D, 0x4D, 0x00, 0x2B],
        vec![0x49, 0x44, 0x33],
        vec![0xFF, 0xFB],
        vec![0x4F, 0x67, 0x67, 0x53],
        vec![0x66, 0x4C, 0x61, 0x43],
        vec![0x52, 0x49, 0x46, 0x46],
        vec![0x00, 0x00, 0x01, 0xBA],
        vec![0x1A, 0x45, 0xDF, 0xA3],
        vec![0x46, 0x4C, 0x56, 0x01],
        vec![0x00, 0x00, 0x00, 0x18],
        vec![0x00, 0x00, 0x01, 0xB3],
        vec![0x50, 0x4B, 0x03, 0x04],
        vec![0x1F, 0x8B],
        vec![0x42, 0x5A, 0x68],
        vec![0xCA, 0xFE, 0xBA, 0xBE],
        vec![0x4C],
        vec![0x7F, 0x45, 0x4C, 0x46],
    ];
    for magic in magics {
        let mut content = magic.clone();
        assert!(is_binary_file(&content), "bare magic {:?}", magic);
        content.extend_from_slice(b"arbitrary suffix bytes");
        assert!(is_binary_file(&content), "magic with suffix {:?}", magic);
    }
}

#[test]
fn test_detect_language_unquoted_value() {
    assert_eq!(detect_language(b"<html lang=en><body></body></html>"), Some("en".to_string()));
}

#[test]
fn test_detect_language_single_quoted_value() {
    assert_eq!(detect_language(b"<html lang='fr-FR'><body></body></html>"), Some("fr-FR".to_string()));
}

#[test]
fn test_detect_language_unterminated_quote() {
    assert!(detect_language(b"<html lang=\"en").is_none());
}

#[test]
fn test_detect_language_outside_window() {
    let mut content = vec![b' '; 1030];
    content.extend_from_slice(b"<html lang=\"en\">");
    assert!(detect_language(&content).is_none());
}

#[test]
fn test_detect_language_non_ascii_value() {
    let content = "<html lang=\"日本語\">".as_bytes();
    assert_eq!(detect_language(content), Some("日本語".to_string()));
}

#[test]
fn test_detect_encoding_direct_form() {
    let content = b"<html><head><meta charset=\"utf-8\"></head></html>";
    assert_eq!(detect_encoding(content), Some("utf-8".to_string()));
}

#[test]
fn test_detect_encoding_http_equiv_form() {
    let content =
        b"<meta http-equiv=\"Content-Type\" content=\"text/html; charset=Shift_JIS\">";
    assert_eq!(detect_encoding(content), Some("Shift_JIS".to_string()));
}

#[test]
fn test_detect_encoding_without_declaration() {
    assert!(detect_encoding(b"<html><body>plain</body></html>").is_none());
    assert!(detect_encoding(b"").is_none());
    assert!(detect_encoding(b"<meta name=\"viewport\">").is_none());
}

#[test]
fn test_detect_encoding_second_meta_wins() {
    let content = b"<meta name=\"viewport\"><meta charset='euc-kr'>";
    assert_eq!(detect_encoding(content), Some("euc-kr".to_string()));
}

#[test]
fn test_detect_encoding_reads_remainder_of_window() {
    // The scan deliberately treats everything after a meta occurrence as
    // that occurrence's content, without respecting tag boundaries.
    let content = b"<meta name=\"x\"><div charset=\"zz\">";
    assert_eq!(detect_encoding(content), Some("zz".to_string()));
}

#[test]
fn test_detect_html_metadata_both_fields() {
    let content = b"<html lang=\"en\"><head><meta charset=\"utf-8\"></head></html>";
    let meta = detect_html_metadata(content).unwrap();
    assert_eq!(meta.lang, Some("en".to_string()));
    assert_eq!(meta.encoding, Some("utf-8".to_string()));
}

#[test]
fn test_detect_html_metadata_absent_fields() {
    let meta = detect_html_metadata(b"<p>nothing declared</p>").unwrap();
    assert!(meta.lang.is_none());
    assert!(meta.encoding.is_none());
}

#[test]
fn test_find_subsequence_needle_longer_than_haystack() {
    assert_eq!(find_subsequence(b"ab", b"abc"), None);
}
