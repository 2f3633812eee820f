//! Static reference data: the binary-signature table, the locale-to-encoding
//! table, and the metadata record the HTML scanner produces.

use vstd::prelude::*;

verus! {

/// Language and character-set declarations found in an HTML document.
pub struct HtmlMetadata {
    /// The HTML lang attribute value, as declared.
    pub lang: Option<String>,
    /// The declared character-set name, as written in the markup.
    pub encoding: Option<String>,
}

/// The encodings that the locale table and byte-order-mark detection can
/// resolve to, identified by their canonical encoding names.
#[derive(Clone, Copy, PartialEq, Eq, Structural, Debug)]
pub enum EncodingId {
    Utf8,
    Utf16Le,
    Utf16Be,
    ShiftJis,
    EucKr,
    Gb18030,
    Big5,
    Windows874,
    Windows1250,
    Windows1251,
    Windows1252,
    Windows1253,
    Windows1254,
    Windows1255,
    Windows1256,
    Windows1257,
    Windows1258,
}

impl EncodingId {
    /// The canonical name of this encoding, as the codec library spells it.
    pub open spec fn spec_name(self) -> Seq<char> {
        match self {
            EncodingId::Utf8 => "UTF-8"@,
            EncodingId::Utf16Le => "UTF-16LE"@,
            EncodingId::Utf16Be => "UTF-16BE"@,
            EncodingId::ShiftJis => "Shift_JIS"@,
            EncodingId::EucKr => "EUC-KR"@,
            EncodingId::Gb18030 => "gb18030"@,
            EncodingId::Big5 => "Big5"@,
            EncodingId::Windows874 => "windows-874"@,
            EncodingId::Windows1250 => "windows-1250"@,
            EncodingId::Windows1251 => "windows-1251"@,
            EncodingId::Windows1252 => "windows-1252"@,
            EncodingId::Windows1253 => "windows-1253"@,
            EncodingId::Windows1254 => "windows-1254"@,
            EncodingId::Windows1255 => "windows-1255"@,
            EncodingId::Windows1256 => "windows-1256"@,
            EncodingId::Windows1257 => "windows-1257"@,
            EncodingId::Windows1258 => "windows-1258"@,
        }
    }
}

/// `p` is a prefix of `c`.
pub open spec fn is_prefix_of(p: Seq<u8>, c: Seq<u8>) -> bool {
    p.len() <= c.len() && c.subrange(0, p.len() as int) == p
}

/// The signature table: each known binary format's key and its magic bytes,
/// in table order. A format is recognized by its magic bytes standing at the
/// very start of the content.
pub open spec fn sig_table() -> Seq<(Seq<char>, Seq<u8>)> {
    seq![
        ("jpeg"@, seq![0xFFu8, 0xD8u8, 0xFFu8]),
        ("pdf"@, seq![0x25u8, 0x50u8, 0x44u8, 0x46u8]),
        ("png"@, seq![0x89u8, 0x50u8, 0x4Eu8, 0x47u8]),
        ("gif"@, seq![0x47u8, 0x49u8, 0x46u8, 0x38u8]),
        ("bmp"@, seq![0x42u8, 0x4Du8]),
        ("tiff_le"@, seq![0x49u8, 0x49u8, 0x2Au8, 0x00u8]),
        ("tiff_be"@, seq![0x4Du8, 0x4Du8, 0x00u8, 0x2Au8]),
        ("bigtiff_le"@, seq![0x49u8, 0x49u8, 0x2Bu8, 0x00u8]),
        ("bigtiff_be"@, seq![0x4Du8, 0x4Du8, 0x00u8, 0x2Bu8]),
        ("mp3_id3"@, seq![0x49u8, 0x44u8, 0x33u8]),
        ("mp3_no_id3"@, seq![0xFFu8, 0xFBu8]),
        ("ogg"@, seq![0x4Fu8, 0x67u8, 0x67u8, 0x53u8]),
        ("flac"@, seq![0x66u8, 0x4Cu8, 0x61u8, 0x43u8]),
        ("riff"@, seq![0x52u8, 0x49u8, 0x46u8, 0x46u8]),
        ("mpg_mpeg"@, seq![0x00u8, 0x00u8, 0x01u8, 0xBAu8]),
        ("mkv"@, seq![0x1Au8, 0x45u8, 0xDFu8, 0xA3u8]),
        ("flv"@, seq![0x46u8, 0x4Cu8, 0x56u8, 0x01u8]),
        ("mp4"@, seq![0x00u8, 0x00u8, 0x00u8, 0x18u8]),
        ("mpeg_1b3"@, seq![0x00u8, 0x00u8, 0x01u8, 0xB3u8]),
        ("zip"@, seq![0x50u8, 0x4Bu8, 0x03u8, 0x04u8]),
        ("gzip"@, seq![0x1Fu8, 0x8Bu8]),
        ("bzip"@, seq![0x42u8, 0x5Au8, 0x68u8]),
        ("bzip2"@, seq![0x42u8, 0x5Au8, 0x68u8]),
        ("java_class"@, seq![0xCAu8, 0xFEu8, 0xBAu8, 0xBEu8]),
        ("lha"@, seq![0x4Cu8]),
        ("elf"@, seq![0x7Fu8, 0x45u8, 0x4Cu8, 0x46u8]),
    ]
}

/// Some table signature's magic bytes stand at the start of the content.
pub open spec fn matches_known_signature(c: Seq<u8>) -> bool {
    exists|i: int| 0 <= i < sig_table().len() && is_prefix_of(#[trigger] sig_table()[i].1, c)
}

/// Every magic in the table is non-empty.
pub proof fn lemma_sig_magics_nonempty()
    ensures
        forall|i: int| 0 <= i < sig_table().len() ==> (#[trigger] sig_table()[i].1).len() >= 1,
{
    assert forall|i: int| 0 <= i < sig_table().len() implies (#[trigger] sig_table()[i].1).len()
        >= 1 by {
        if i < 13 {
            if i < 6 {
                assert(sig_table()[i].1.len() >= 1);
            } else {
                assert(sig_table()[i].1.len() >= 1);
            }
        } else {
            if i < 20 {
                assert(sig_table()[i].1.len() >= 1);
            } else {
                assert(sig_table()[i].1.len() >= 1);
            }
        }
    }
}

/// The signature table, entry by entry.
pub proof fn lemma_sig_table_entries()
    ensures
        sig_table().len() == 26,
        sig_table()[0].1 == seq![0xFFu8, 0xD8u8, 0xFFu8],
        sig_table()[1].1 == seq![0x25u8, 0x50u8, 0x44u8, 0x46u8],
        sig_table()[2].1 == seq![0x89u8, 0x50u8, 0x4Eu8, 0x47u8],
        sig_table()[3].1 == seq![0x47u8, 0x49u8, 0x46u8, 0x38u8],
        sig_table()[4].1 == seq![0x42u8, 0x4Du8],
        sig_table()[5].1 == seq![0x49u8, 0x49u8, 0x2Au8, 0x00u8],
        sig_table()[6].1 == seq![0x4Du8, 0x4Du8, 0x00u8, 0x2Au8],
        sig_table()[7].1 == seq![0x49u8, 0x49u8, 0x2Bu8, 0x00u8],
        sig_table()[8].1 == seq![0x4Du8, 0x4Du8, 0x00u8, 0x2Bu8],
        sig_table()[9].1 == seq![0x49u8, 0x44u8, 0x33u8],
        sig_table()[10].1 == seq![0xFFu8, 0xFBu8],
        sig_table()[11].1 == seq![0x4Fu8, 0x67u8, 0x67u8, 0x53u8],
        sig_table()[12].1 == seq![0x66u8, 0x4Cu8, 0x61u8, 0x43u8],
        sig_table()[13].1 == seq![0x52u8, 0x49u8, 0x46u8, 0x46u8],
        sig_table()[14].1 == seq![0x00u8, 0x00u8, 0x01u8, 0xBAu8],
        sig_table()[15].1 == seq![0x1Au8, 0x45u8, 0xDFu8, 0xA3u8],
        sig_table()[16].1 == seq![0x46u8, 0x4Cu8, 0x56u8, 0x01u8],
        sig_table()[17].1 == seq![0x00u8, 0x00u8, 0x00u8, 0x18u8],
        sig_table()[18].1 == seq![0x00u8, 0x00u8, 0x01u8, 0xB3u8],
        sig_table()[19].1 == seq![0x50u8, 0x4Bu8, 0x03u8, 0x04u8],
        sig_table()[20].1 == seq![0x1Fu8, 0x8Bu8],
        sig_table()[21].1 == seq![0x42u8, 0x5Au8, 0x68u8],
        sig_table()[22].1 == seq![0x42u8, 0x5Au8, 0x68u8],
        sig_table()[23].1 == seq![0xCAu8, 0xFEu8, 0xBAu8, 0xBEu8],
        sig_table()[24].1 == seq![0x4Cu8],
        sig_table()[25].1 == seq![0x7Fu8, 0x45u8, 0x4Cu8, 0x46u8],
{
}

/// No signature matches empty content.
pub proof fn lemma_empty_never_matches(c: Seq<u8>)
    requires
        c.len() == 0,
    ensures
        !matches_known_signature(c),
{
    lemma_sig_magics_nonempty();
}

/// Any table magic followed by an arbitrary suffix matches its signature.
pub proof fn lemma_magic_with_suffix_matches(i: int, suffix: Seq<u8>)
    requires
        0 <= i < sig_table().len(),
    ensures
        matches_known_signature(sig_table()[i].1 + suffix),
{
    let m = sig_table()[i].1;
    assert((m + suffix).subrange(0, m.len() as int) =~= m);
    assert(is_prefix_of(sig_table()[i].1, m + suffix));
}

/// ASCII lower-casing of one character: A through Z map to their lower-case
/// forms, every other character is unchanged.
pub open spec fn lower_char(c: char) -> char {
    if 'A' <= c && c <= 'Z' {
        ((c as u8) + 0x20) as char
    } else {
        c
    }
}

/// ASCII lower-casing of a character sequence.
pub open spec fn ascii_lower(s: Seq<char>) -> Seq<char> {
    Seq::new(s.len(), |i: int| lower_char(s[i]))
}

/// ASCII lower-casing changes nothing the second time.
pub proof fn lemma_ascii_lower_idempotent(s: Seq<char>)
    ensures
        ascii_lower(ascii_lower(s)) == ascii_lower(s),
{
    assert(ascii_lower(ascii_lower(s)) =~= ascii_lower(s));
}

fn lower_char_exec(c: char) -> (r: char)
    ensures
        r == lower_char(c),
{
    if c >= 'A' && c <= 'Z' {
        ((c as u8) + 0x20) as char
    } else {
        c
    }
}

/// Whether `locale`, lower-cased, equals the (already lower-case) `key`.
fn locale_matches(locale: &str, key: &str) -> (r: bool)
    ensures
        r == (ascii_lower(locale@) == key@),
{
    let n = locale.unicode_len();
    if n != key.unicode_len() {
        return false;
    }
    let mut i: usize = 0;
    while i < n
        invariant
            i <= n,
            n == locale@.len(),
            n == key@.len(),
            forall|k: int| 0 <= k < i ==> lower_char(locale@[k]) == key@[k],
        decreases n - i,
    {
        let lc = locale.get_char(i);
        let kc = key.get_char(i);
        if lower_char_exec(lc) != kc {
            proof {
                assert(ascii_lower(locale@)[i as int] != key@[i as int]);
            }
            return false;
        }
        i += 1;
    }
    proof {
        assert(ascii_lower(locale@) =~= key@);
    }
    true
}

/// The conventional default encoding for a lower-cased locale code, if the
/// locale is in the table.
pub open spec fn locale_encoding(l: Seq<char>) -> Option<EncodingId> {
    if l == "af-za"@ { Some(EncodingId::Windows1252) }
    else if l == "ar-ae"@ { Some(EncodingId::Windows1256) }
    else if l == "ar-bh"@ { Some(EncodingId::Windows1256) }
    else if l == "ar-dz"@ { Some(EncodingId::Windows1256) }
    else if l == "ar-eg"@ { Some(EncodingId::Windows1256) }
    else if l == "ar-iq"@ { Some(EncodingId::Windows1256) }
    else if l == "ar-jo"@ { Some(EncodingId::Windows1256) }
    else if l == "ar-kw"@ { Some(EncodingId::Windows1256) }
    else if l == "ar-lb"@ { Some(EncodingId::Windows1256) }
    else if l == "ar-ly"@ { Some(EncodingId::Windows1256) }
    else if l == "ar-ma"@ { Some(EncodingId::Windows1256) }
    else if l == "ar-om"@ { Some(EncodingId::Windows1256) }
    else if l == "ar-qa"@ { Some(EncodingId::Windows1256) }
    else if l == "ar-sa"@ { Some(EncodingId::Windows1256) }
    else if l == "ar-sy"@ { Some(EncodingId::Windows1256) }
    else if l == "ar-tn"@ { Some(EncodingId::Windows1256) }
    else if l == "ar-ye"@ { Some(EncodingId::Windows1256) }
    else if l == "be-by"@ { Some(EncodingId::Windows1251) }
    else if l == "bg-bg"@ { Some(EncodingId::Windows1251) }
    else if l == "ca-es"@ { Some(EncodingId::Windows1252) }
    else if l == "cs-cz"@ { Some(EncodingId::Windows1250) }
    else if l == "da-dk"@ { Some(EncodingId::Windows1252) }
    else if l == "de-at"@ { Some(EncodingId::Windows1252) }
    else if l == "de-ch"@ { Some(EncodingId::Windows1252) }
    else if l == "de-de"@ { Some(EncodingId::Windows1252) }
    else if l == "de-lu"@ { Some(EncodingId::Windows1252) }
    else if l == "el-gr"@ { Some(EncodingId::Windows1253) }
    else if l == "en-au"@ { Some(EncodingId::Windows1252) }
    else if l == "en-ca"@ { Some(EncodingId::Windows1252) }
    else if l == "en-gb"@ { Some(EncodingId::Windows1252) }
    else if l == "en-ie"@ { Some(EncodingId::Windows1252) }
    else if l == "en-nz"@ { Some(EncodingId::Windows1252) }
    else if l == "en-us"@ { Some(EncodingId::Utf8) }
    else if l == "es-ar"@ { Some(EncodingId::Windows1252) }
    else if l == "es-bo"@ { Some(EncodingId::Windows1252) }
    else if l == "es-cl"@ { Some(EncodingId::Windows1252) }
    else if l == "es-co"@ { Some(EncodingId::Windows1252) }
    else if l == "es-cr"@ { Some(EncodingId::Windows1252) }
    else if l == "es-do"@ { Some(EncodingId::Windows1252) }
    else if l == "es-ec"@ { Some(EncodingId::Windows1252) }
    else if l == "es-es"@ { Some(EncodingId::Windows1252) }
    else if l == "es-gt"@ { Some(EncodingId::Windows1252) }
    else if l == "es-hn"@ { Some(EncodingId::Windows1252) }
    else if l == "es-mx"@ { Some(EncodingId::Windows1252) }
    else if l == "es-ni"@ { Some(EncodingId::Windows1252) }
    else if l == "es-pa"@ { Some(EncodingId::Windows1252) }
    else if l == "es-pe"@ { Some(EncodingId::Windows1252) }
    else if l == "es-pr"@ { Some(EncodingId::Windows1252) }
    else if l == "es-py"@ { Some(EncodingId::Windows1252) }
    else if l == "es-sv"@ { Some(EncodingId::Windows1252) }
    else if l == "es-uy"@ { Some(EncodingId::Windows1252) }
    else if l == "es-ve"@ { Some(EncodingId::Windows1252) }
    else if l == "et-ee"@ { Some(EncodingId::Windows1257) }
    else if l == "fi-fi"@ { Some(EncodingId::Windows1252) }
    else if l == "fr-be"@ { Some(EncodingId::Windows1252) }
    else if l == "fr-ca"@ { Some(EncodingId::Windows1252) }
    else if l == "fr-ch"@ { Some(EncodingId::Windows1252) }
    else if l == "fr-fr"@ { Some(EncodingId::Windows1252) }
    else if l == "fr-lu"@ { Some(EncodingId::Windows1252) }
    else if l == "he-il"@ { Some(EncodingId::Windows1255) }
    else if l == "hi-in"@ { Some(EncodingId::Utf8) }
    else if l == "hr-hr"@ { Some(EncodingId::Windows1250) }
    else if l == "hu-hu"@ { Some(EncodingId::Windows1250) }
    else if l == "is-is"@ { Some(EncodingId::Windows1252) }
    else if l == "it-ch"@ { Some(EncodingId::Windows1252) }
    else if l == "it-it"@ { Some(EncodingId::Windows1252) }
    else if l == "ja-jp"@ { Some(EncodingId::ShiftJis) }
    else if l == "ko-kr"@ { Some(EncodingId::EucKr) }
    else if l == "lt-lt"@ { Some(EncodingId::Windows1257) }
    else if l == "lv-lv"@ { Some(EncodingId::Windows1257) }
    else if l == "mk-mk"@ { Some(EncodingId::Windows1251) }
    else if l == "ms-my"@ { Some(EncodingId::Windows1252) }
    else if l == "mt-mt"@ { Some(EncodingId::Windows1252) }
    else if l == "nl-be"@ { Some(EncodingId::Windows1252) }
    else if l == "nl-nl"@ { Some(EncodingId::Windows1252) }
    else if l == "no-no"@ { Some(EncodingId::Windows1252) }
    else if l == "pl-pl"@ { Some(EncodingId::Windows1250) }
    else if l == "pt-br"@ { Some(EncodingId::Windows1252) }
    else if l == "pt-pt"@ { Some(EncodingId::Windows1252) }
    else if l == "ro-ro"@ { Some(EncodingId::Windows1250) }
    else if l == "ru-ru"@ { Some(EncodingId::Windows1251) }
    else if l == "sk-sk"@ { Some(EncodingId::Windows1250) }
    else if l == "sl-si"@ { Some(EncodingId::Windows1250) }
    else if l == "sr-sp"@ { Some(EncodingId::Windows1251) }
    else if l == "sv-fi"@ { Some(EncodingId::Windows1252) }
    else if l == "sv-se"@ { Some(EncodingId::Windows1252) }
    else if l == "th-th"@ { Some(EncodingId::Windows874) }
    else if l == "tr-tr"@ { Some(EncodingId::Windows1254) }
    else if l == "uk-ua"@ { Some(EncodingId::Windows1251) }
    else if l == "vi-vn"@ { Some(EncodingId::Windows1258) }
    else if l == "zh-cn"@ { Some(EncodingId::Gb18030) }
    else if l == "zh-tw"@ { Some(EncodingId::Big5) }
    else { None }
}

/// The table lookup is insensitive to ASCII case: locales that agree after
/// ASCII lower-casing resolve to the same encoding, and lower-casing an
/// already lower-cased locale changes nothing.
pub proof fn lemma_locale_lookup_case_insensitive(l1: Seq<char>, l2: Seq<char>)
    requires
        ascii_lower(l1) == ascii_lower(l2),
    ensures
        locale_encoding(ascii_lower(l1)) == locale_encoding(ascii_lower(l2)),
        locale_encoding(ascii_lower(ascii_lower(l1))) == locale_encoding(ascii_lower(l1)),
{
    lemma_ascii_lower_idempotent(l1);
}

/// The conventional default encoding for a locale, compared without regard
/// to ASCII case, if the locale is in the table.
#[verifier::rlimit(30)]
pub fn encoding_id_for_locale(locale: &str) -> (r: Option<EncodingId>)
    ensures
        r == locale_encoding(ascii_lower(locale@)),
{
    if locale_matches(locale, "af-za") { Some(EncodingId::Windows1252) }
    else if locale_matches(locale, "ar-ae") { Some(EncodingId::Windows1256) }
    else if locale_matches(locale, "ar-bh") { Some(EncodingId::Windows1256) }
    else if locale_matches(locale, "ar-dz") { Some(EncodingId::Windows1256) }
    else if locale_matches(locale, "ar-eg") { Some(EncodingId::Windows1256) }
    else if locale_matches(locale, "ar-iq") { Some(EncodingId::Windows1256) }
    else if locale_matches(locale, "ar-jo") { Some(EncodingId::Windows1256) }
    else if locale_matches(locale, "ar-kw") { Some(EncodingId::Windows1256) }
    else if locale_matches(locale, "ar-lb") { Some(EncodingId::Windows1256) }
    else if locale_matches(locale, "ar-ly") { Some(EncodingId::Windows1256) }
    else if locale_matches(locale, "ar-ma") { Some(EncodingId::Windows1256) }
    else if locale_matches(locale, "ar-om") { Some(EncodingId::Windows1256) }
    else if locale_matches(locale, "ar-qa") { Some(EncodingId::Windows1256) }
    else if locale_matches(locale, "ar-sa") { Some(EncodingId::Windows1256) }
    else if locale_matches(locale, "ar-sy") { Some(EncodingId::Windows1256) }
    else if locale_matches(locale, "ar-tn") { Some(EncodingId::Windows1256) }
    else if locale_matches(locale, "ar-ye") { Some(EncodingId::Windows1256) }
    else if locale_matches(locale, "be-by") { Some(EncodingId::Windows1251) }
    else if locale_matches(locale, "bg-bg") { Some(EncodingId::Windows1251) }
    else if locale_matches(locale, "ca-es") { Some(EncodingId::Windows1252) }
    else if locale_matches(locale, "cs-cz") { Some(EncodingId::Windows1250) }
    else if locale_matches(locale, "da-dk") { Some(EncodingId::Windows1252) }
    else if locale_matches(locale, "de-at") { Some(EncodingId::Windows1252) }
    else if locale_matches(locale, "de-ch") { Some(EncodingId::Windows1252) }
    else if locale_matches(locale, "de-de") { Some(EncodingId::Windows1252) }
    else if locale_matches(locale, "de-lu") { Some(EncodingId::Windows1252) }
    else if locale_matches(locale, "el-gr") { Some(EncodingId::Windows1253) }
    else if locale_matches(locale, "en-au") { Some(EncodingId::Windows1252) }
    else if locale_matches(locale, "en-ca") { Some(EncodingId::Windows1252) }
    else if locale_matches(locale, "en-gb") { Some(EncodingId::Windows1252) }
    else if locale_matches(locale, "en-ie") { Some(EncodingId::Windows1252) }
    else if locale_matches(locale, "en-nz") { Some(EncodingId::Windows1252) }
    else if locale_matches(locale, "en-us") { Some(EncodingId::Utf8) }
    else if locale_matches(locale, "es-ar") { Some(EncodingId::Windows1252) }
    else if locale_matches(locale, "es-bo") { Some(EncodingId::Windows1252) }
    else if locale_matches(locale, "es-cl") { Some(EncodingId::Windows1252) }
    else if locale_matches(locale, "es-co") { Some(EncodingId::Windows1252) }
    else if locale_matches(locale, "es-cr") { Some(EncodingId::Windows1252) }
    else if locale_matches(locale, "es-do") { Some(EncodingId::Windows1252) }
    else if locale_matches(locale, "es-ec") { Some(EncodingId::Windows1252) }
    else if locale_matches(locale, "es-es") { Some(EncodingId::Windows1252) }
    else if locale_matches(locale, "es-gt") { Some(EncodingId::Windows1252) }
    else if locale_matches(locale, "es-hn") { Some(EncodingId::Windows1252) }
    else if locale_matches(locale, "es-mx") { Some(EncodingId::Windows1252) }
    else if locale_matches(locale, "es-ni") { Some(EncodingId::Windows1252) }
    else if locale_matches(locale, "es-pa") { Some(EncodingId::Windows1252) }
    else if locale_matches(locale, "es-pe") { Some(EncodingId::Windows1252) }
    else if locale_matches(locale, "es-pr") { Some(EncodingId::Windows1252) }
    else if locale_matches(locale, "es-py") { Some(EncodingId::Windows1252) }
    else if locale_matches(locale, "es-sv") { Some(EncodingId::Windows1252) }
    else if locale_matches(locale, "es-uy") { Some(EncodingId::Windows1252) }
    else if locale_matches(locale, "es-ve") { Some(EncodingId::Windows1252) }
    else if locale_matches(locale, "et-ee") { Some(EncodingId::Windows1257) }
    else if locale_matches(locale, "fi-fi") { Some(EncodingId::Windows1252) }
    else if locale_matches(locale, "fr-be") { Some(EncodingId::Windows1252) }
    else if locale_matches(locale, "fr-ca") { Some(EncodingId::Windows1252) }
    else if locale_matches(locale, "fr-ch") { Some(EncodingId::Windows1252) }
    else if locale_matches(locale, "fr-fr") { Some(EncodingId::Windows1252) }
    else if locale_matches(locale, "fr-lu") { Some(EncodingId::Windows1252) }
    else if locale_matches(locale, "he-il") { Some(EncodingId::Windows1255) }
    else if locale_matches(locale, "hi-in") { Some(EncodingId::Utf8) }
    else if locale_matches(locale, "hr-hr") { Some(EncodingId::Windows1250) }
    else if locale_matches(locale, "hu-hu") { Some(EncodingId::Windows1250) }
    else if locale_matches(locale, "is-is") { Some(EncodingId::Windows1252) }
    else if locale_matches(locale, "it-ch") { Some(EncodingId::Windows1252) }
    else if locale_matches(locale, "it-it") { Some(EncodingId::Windows1252) }
    else if locale_matches(locale, "ja-jp") { Some(EncodingId::ShiftJis) }
    else if locale_matches(locale, "ko-kr") { Some(EncodingId::EucKr) }
    else if locale_matches(locale, "lt-lt") { Some(EncodingId::Windows1257) }
    else if locale_matches(locale, "lv-lv") { Some(EncodingId::Windows1257) }
    else if locale_matches(locale, "mk-mk") { Some(EncodingId::Windows1251) }
    else if locale_matches(locale, "ms-my") { Some(EncodingId::Windows1252) }
    else if locale_matches(locale, "mt-mt") { Some(EncodingId::Windows1252) }
    else if locale_matches(locale, "nl-be") { Some(EncodingId::Windows1252) }
    else if locale_matches(locale, "nl-nl") { Some(EncodingId::Windows1252) }
    else if locale_matches(locale, "no-no") { Some(EncodingId::Windows1252) }
    else if locale_matches(locale, "pl-pl") { Some(EncodingId::Windows1250) }
    else if locale_matches(locale, "pt-br") { Some(EncodingId::Windows1252) }
    else if locale_matches(locale, "pt-pt") { Some(EncodingId::Windows1252) }
    else if locale_matches(locale, "ro-ro") { Some(EncodingId::Windows1250) }
    else if locale_matches(locale, "ru-ru") { Some(EncodingId::Windows1251) }
    else if locale_matches(locale, "sk-sk") { Some(EncodingId::Windows1250) }
    else if locale_matches(locale, "sl-si") { Some(EncodingId::Windows1250) }
    else if locale_matches(locale, "sr-sp") { Some(EncodingId::Windows1251) }
    else if locale_matches(locale, "sv-fi") { Some(EncodingId::Windows1252) }
    else if locale_matches(locale, "sv-se") { Some(EncodingId::Windows1252) }
    else if locale_matches(locale, "th-th") { Some(EncodingId::Windows874) }
    else if locale_matches(locale, "tr-tr") { Some(EncodingId::Windows1254) }
    else if locale_matches(locale, "uk-ua") { Some(EncodingId::Windows1251) }
    else if locale_matches(locale, "vi-vn") { Some(EncodingId::Windows1258) }
    else if locale_matches(locale, "zh-cn") { Some(EncodingId::Gb18030) }
    else if locale_matches(locale, "zh-tw") { Some(EncodingId::Big5) }
    else { None }
}

} // verus!
