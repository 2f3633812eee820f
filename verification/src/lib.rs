//! Detection and decoding of byte content of unknown origin: binary-format
//! sniffing by magic bytes, bounded scanning of HTML markup for declared
//! language and character set, and conversion of raw bytes into text through
//! a resolved encoding with a deterministic fallback chain.

pub mod codec;
pub mod decode;
pub mod detect;
pub mod meta;

pub use detect::detect_encoding;
pub use detect::detect_html_metadata;
pub use detect::detect_language;
pub use detect::find_subsequence;
pub use detect::is_binary_file;
pub use meta::encoding_id_for_locale;
pub use meta::EncodingId;
pub use meta::HtmlMetadata;

use codec::decoded;
use codec::enc_name;
use codec::encoding_for_label_str;
use codec::encoding_of_id;
use codec::guessed;
use codec::label_lookup;
use codec::new_sniff_detector;
use codec::sniff_feed;
use codec::sniff_guess;
use decode::decode_with_encoding;
use detect::charset_of;
use meta::ascii_lower;
use meta::locale_encoding;
use vstd::prelude::*;

verus! {

/// The encoding, if any, that a recognized byte-order mark at the very
/// start of the content declares.
pub open spec fn bom_id(b: Seq<u8>) -> Option<EncodingId> {
    if b.len() >= 3 && b[0] == 0xEF && b[1] == 0xBB && b[2] == 0xBF {
        Some(EncodingId::Utf8)
    } else if b.len() >= 2 && b[0] == 0xFF && b[1] == 0xFE {
        Some(EncodingId::Utf16Le)
    } else if b.len() >= 2 && b[0] == 0xFE && b[1] == 0xFF {
        Some(EncodingId::Utf16Be)
    } else {
        None
    }
}

/// The name of the encoding the fallback chain settles on when no locale
/// mapping applies: a byte-order mark wins, else the statistical guess.
pub open spec fn fallback_name(b: Seq<u8>) -> Seq<char> {
    match bom_id(b) {
        Some(id) => id.spec_name(),
        None => guessed(b),
    }
}

/// The name of the encoding resolved from a language or locale hint and
/// the content: the locale table first, else the fallback chain.
pub open spec fn language_resolved_name(lang: Seq<char>, b: Seq<u8>) -> Seq<char> {
    match locale_encoding(ascii_lower(lang)) {
        Some(id) => id.spec_name(),
        None => fallback_name(b),
    }
}

/// The encoding a recognized byte-order mark at the start of the content
/// declares, if any.
fn bom_encoding(content: &[u8]) -> (r: Option<EncodingId>)
    ensures
        r == bom_id(content@),
{
    if content.len() >= 3 && content[0] == 0xEF && content[1] == 0xBB && content[2] == 0xBF {
        Some(EncodingId::Utf8)
    } else if content.len() >= 2 && content[0] == 0xFF && content[1] == 0xFE {
        Some(EncodingId::Utf16Le)
    } else if content.len() >= 2 && content[0] == 0xFE && content[1] == 0xFF {
        Some(EncodingId::Utf16Be)
    } else {
        None
    }
}

/// Feed the whole content to a fresh statistical detector and take its
/// best guess.
fn guess_encoding(content: &[u8]) -> (e: &'static encoding_rs::Encoding)
    ensures
        enc_name(e) == guessed(content@),
{
    let mut detector = new_sniff_detector();
    sniff_feed(&mut detector, content);
    proof {
        assert(Seq::<u8>::empty() + content@ =~= content@);
    }
    sniff_guess(&detector)
}

/// Resolve an encoding from the content alone: a byte-order mark wins,
/// else the statistical guess.
fn resolve_fallback(content: &[u8]) -> (e: &'static encoding_rs::Encoding)
    ensures
        enc_name(e) == fallback_name(content@),
{
    match bom_encoding(content) {
        Some(id) => encoding_of_id(id),
        None => guess_encoding(content),
    }
}

/// Get encoding for the locale if found.
pub fn encoding_for_locale(locale: &str) -> (r: Option<&'static encoding_rs::Encoding>)
    ensures
        match locale_encoding(ascii_lower(locale@)) {
            Some(id) => r matches Some(e) && enc_name(e) == id.spec_name(),
            None => r is None,
        },
{
    match encoding_id_for_locale(locale) {
        Some(id) => Some(encoding_of_id(id)),
        None => None,
    }
}

/// Get the content with proper encoding. Pass in a proper encoding label
/// like SHIFT_JIS. An unrecognized label yields empty text.
pub fn encode_bytes(html: &[u8], label: &str) -> (r: String)
    ensures
        match label_lookup(label@) {
            Some(n) => r@ == decoded(n, html@),
            None => r@ == Seq::<char>::empty(),
        },
{
    match encoding_for_label_str(label) {
        Some(e) => decode_with_encoding(html, e),
        None => String::new(),
    }
}

/// Get the content with proper encoding from a language or locale hint
/// like "ja": the locale table first, else a byte-order mark, else the
/// statistical guess. Resolution never fails.
pub fn encode_bytes_from_language(html: &[u8], language: &str) -> (r: String)
    ensures
        r@ == decoded(language_resolved_name(language@, html@), html@),
{
    let e = match encoding_id_for_locale(language) {
        Some(id) => encoding_of_id(id),
        None => resolve_fallback(html),
    };
    decode_with_encoding(html, e)
}

/// The encoding name the automatic path resolves for non-empty content: a
/// charset declared in the content that the label lookup recognizes, else
/// the fallback chain.
pub open spec fn auto_resolved_name(b: Seq<u8>) -> Seq<char> {
    match charset_of(b) {
        Some(cs) => match label_lookup(cs) {
            Some(n) => n,
            None => fallback_name(b),
        },
        None => fallback_name(b),
    }
}

/// Get the content with proper encoding chosen automatically: empty input
/// yields empty text; a charset declared in the content is resolved through
/// the label lookup; an absent or unrecognized declaration falls through to
/// a byte-order mark, else the statistical guess.
pub fn auto_encode_bytes(html: &[u8]) -> (r: String)
    ensures
        html@.len() == 0 ==> r@ == Seq::<char>::empty(),
        html@.len() > 0 ==> r@ == decoded(auto_resolved_name(html@), html@),
{
    if html.is_empty() {
        return String::new();
    }
    let e = match detect_encoding(html) {
        Some(label) => match encoding_for_label_str(label.as_str()) {
            Some(e) => e,
            None => resolve_fallback(html),
        },
        None => resolve_fallback(html),
    };
    decode_with_encoding(html, e)
}

} // verus!
