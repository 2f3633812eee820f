//! Binary-format sniffing, byte-level searching, and the bounded scan of
//! HTML markup for declared language and character set.

use crate::codec::string_from_utf8;
use crate::meta::is_prefix_of;
use crate::meta::lemma_empty_never_matches;
use crate::meta::lemma_sig_table_entries;
use crate::meta::matches_known_signature;
use crate::meta::sig_table;
use crate::meta::HtmlMetadata;
use vstd::prelude::*;

verus! {

/// `needle` occurs in `haystack` starting at index `i`.
pub open spec fn matches_at(haystack: Seq<u8>, needle: Seq<u8>, i: int) -> bool {
    &&& 0 <= i
    &&& i + needle.len() <= haystack.len()
    &&& haystack.subrange(i, i + needle.len() as int) == needle
}

/// Index of the first occurrence of `needle` in `haystack` at or after `from`,
/// if there is one.
pub open spec fn find_from(haystack: Seq<u8>, needle: Seq<u8>, from: int) -> Option<int>
    decreases haystack.len() - from,
{
    if from < 0 || from + needle.len() > haystack.len() {
        None
    } else if haystack.subrange(from, from + needle.len() as int) == needle {
        Some(from)
    } else if from < haystack.len() {
        find_from(haystack, needle, from + 1)
    } else {
        None
    }
}

/// Index of the first occurrence of `needle` in `haystack`, if there is one.
pub open spec fn find_sub(haystack: Seq<u8>, needle: Seq<u8>) -> Option<int> {
    find_from(haystack, needle, 0)
}

/// A found index is the least match at or after `from`.
pub proof fn lemma_find_from_some(haystack: Seq<u8>, needle: Seq<u8>, from: int, i: int)
    requires
        find_from(haystack, needle, from) == Some(i),
    ensures
        from <= i,
        matches_at(haystack, needle, i),
        forall|k: int| from <= k < i ==> !matches_at(haystack, needle, k),
    decreases haystack.len() - from,
{
    if from < 0 || from + needle.len() > haystack.len() {
        assert(false);
    } else if haystack.subrange(from, from + needle.len() as int) == needle {
    } else if from < haystack.len() {
        lemma_find_from_some(haystack, needle, from + 1, i);
    } else {
        assert(false);
    }
}

/// Whether `needle` occurs as a prefix of `haystack` at position `at`.
fn prefix_matches(haystack: &[u8], needle: &[u8], at: usize) -> (r: bool)
    requires
        at + needle@.len() <= haystack@.len(),
    ensures
        r == matches_at(haystack@, needle@, at as int),
{
    let n = needle.len();
    let hlen = haystack.len();
    let mut j: usize = 0;
    while j < n
        invariant
            j <= n,
            n == needle@.len(),
            hlen == haystack@.len(),
            at + n <= hlen,
            forall|k: int| 0 <= k < j ==> haystack@[at + k] == needle@[k],
        decreases n - j,
    {
        if haystack[at + j] != needle[j] {
            proof {
                assert(haystack@.subrange(at as int, at + n) != needle@) by {
                    assert(haystack@.subrange(at as int, at + n)[j as int] == haystack@[at + j]);
                }
            }
            return false;
        }
        j += 1;
    }
    proof {
        assert(haystack@.subrange(at as int, at + n) =~= needle@);
    }
    true
}

/// Position of the first occurrence of `needle` in `haystack`, scanning left
/// to right, as an index into `haystack`.
pub fn find_subsequence(haystack: &[u8], needle: &[u8]) -> (r: Option<usize>)
    requires
        needle@.len() >= 1,
    ensures
        r matches Some(i) ==> find_sub(haystack@, needle@) == Some(i as int),
        r is None ==> find_sub(haystack@, needle@) is None,
{
    let n = needle.len();
    let h = haystack.len();
    if n > h {
        return None;
    }
    let mut i: usize = 0;
    while i <= h - n
        invariant
            n == needle@.len(),
            h == haystack@.len(),
            1 <= n <= h,
            i <= h - n + 1,
            find_from(haystack@, needle@, 0) == find_from(haystack@, needle@, i as int),
        decreases h - i,
    {
        if prefix_matches(haystack, needle, i) {
            return Some(i);
        }
        i += 1;
    }
    None
}

/// Whether the table's signature number `k`, whose magic bytes are `magic`,
/// stands at the very start of `content`.
fn starts_with_magic(content: &[u8], magic: &[u8], k: Ghost<int>) -> (r: bool)
    requires
        0 <= k@ < sig_table().len(),
        magic@ == sig_table()[k@].1,
    ensures
        r == is_prefix_of(sig_table()[k@].1, content@),
{
    if magic.len() > content.len() {
        return false;
    }
    prefix_matches(content, magic, 0)
}

/// Checks whether the content is in a known binary format: its first byte
/// selects the candidate signatures, and the content matches when one
/// candidate's magic bytes stand at its start. Empty content never matches.
pub fn is_binary_file(content: &[u8]) -> (r: bool)
    ensures
        r == matches_known_signature(content@),
        content@.len() == 0 ==> r == false,
{
    if content.is_empty() {
        proof {
            lemma_empty_never_matches(content@);
        }
        return false;
    }
    let b = content[0];
    proof {
        lemma_sig_table_entries();
        assert([0x4Cu8]@ =~= seq![0x4Cu8]);
    }
    // Candidates per first byte, tried in table order. Two listed keys name
    // no magic in the signature table and so contribute no candidate.
    let r = match b {
        0xFF => starts_with_magic(content, [0xFFu8, 0xD8u8, 0xFFu8].as_slice(), Ghost(0))
            || starts_with_magic(content, [0xFFu8, 0xFBu8].as_slice(), Ghost(10)),
        0x89 => starts_with_magic(content, [0x89u8, 0x50u8, 0x4Eu8, 0x47u8].as_slice(), Ghost(2)),
        0x47 => starts_with_magic(content, [0x47u8, 0x49u8, 0x46u8, 0x38u8].as_slice(), Ghost(3)),
        0x42 => starts_with_magic(content, [0x42u8, 0x4Du8].as_slice(), Ghost(4))
            || starts_with_magic(content, [0x42u8, 0x5Au8, 0x68u8].as_slice(), Ghost(21)),
        0x49 => starts_with_magic(content, [0x49u8, 0x49u8, 0x2Au8, 0x00u8].as_slice(), Ghost(5))
            || starts_with_magic(content, [0x49u8, 0x49u8, 0x2Bu8, 0x00u8].as_slice(), Ghost(7))
            || starts_with_magic(content, [0x49u8, 0x44u8, 0x33u8].as_slice(), Ghost(9)),
        0x4D => starts_with_magic(content, [0x4Du8, 0x4Du8, 0x00u8, 0x2Au8].as_slice(), Ghost(6))
            || starts_with_magic(content, [0x4Du8, 0x4Du8, 0x00u8, 0x2Bu8].as_slice(), Ghost(8)),
        0x4F => starts_with_magic(content, [0x4Fu8, 0x67u8, 0x67u8, 0x53u8].as_slice(), Ghost(11)),
        0x66 => starts_with_magic(content, [0x66u8, 0x4Cu8, 0x61u8, 0x43u8].as_slice(), Ghost(12)),
        0x52 => starts_with_magic(content, [0x52u8, 0x49u8, 0x46u8, 0x46u8].as_slice(), Ghost(13)),
        0x00 => starts_with_magic(content, [0x00u8, 0x00u8, 0x01u8, 0xBAu8].as_slice(), Ghost(14))
            || starts_with_magic(content, [0x00u8, 0x00u8, 0x00u8, 0x18u8].as_slice(), Ghost(17))
            || starts_with_magic(content, [0x00u8, 0x00u8, 0x01u8, 0xB3u8].as_slice(), Ghost(18)),
        0x1A => starts_with_magic(content, [0x1Au8, 0x45u8, 0xDFu8, 0xA3u8].as_slice(), Ghost(15)),
        0x46 => starts_with_magic(content, [0x46u8, 0x4Cu8, 0x56u8, 0x01u8].as_slice(), Ghost(16)),
        0x50 => starts_with_magic(content, [0x50u8, 0x4Bu8, 0x03u8, 0x04u8].as_slice(), Ghost(19)),
        0x1F => starts_with_magic(content, [0x1Fu8, 0x8Bu8].as_slice(), Ghost(20)),
        0x25 => starts_with_magic(content, [0x25u8, 0x50u8, 0x44u8, 0x46u8].as_slice(), Ghost(1)),
        0x38 => starts_with_magic(content, [0x47u8, 0x49u8, 0x46u8, 0x38u8].as_slice(), Ghost(3)),
        0xCA => starts_with_magic(content, [0xCAu8, 0xFEu8, 0xBAu8, 0xBEu8].as_slice(), Ghost(23)),
        0x4C => starts_with_magic(content, [0x4Cu8].as_slice(), Ghost(24)),
        0x7F => starts_with_magic(content, [0x7Fu8, 0x45u8, 0x4Cu8, 0x46u8].as_slice(), Ghost(25)),
        _ => false,
    };
    proof {
        if r {
            assert(matches_known_signature(content@));
        } else {
            assert forall|i: int|
                0 <= i < sig_table().len() implies !is_prefix_of(
                #[trigger] sig_table()[i].1,
                content@,
            ) by {
                assert(i == 0 || i == 1 || i == 2 || i == 3 || i == 4 || i == 5 || i == 6 || i == 7
                    || i == 8 || i == 9 || i == 10 || i == 11 || i == 12 || i == 13 || i == 14
                    || i == 15 || i == 16 || i == 17 || i == 18 || i == 19 || i == 20 || i == 21
                    || i == 22 || i == 23 || i == 24 || i == 25);
                if is_prefix_of(sig_table()[i].1, content@) {
                    assert(content@.subrange(0, sig_table()[i].1.len() as int)[0]
                        == content@[0]);
                }
            }
        }
    }
    r
}

/// The bounded search window: the leading portion of the content, at most
/// 1024 bytes, inspected for HTML metadata.
pub open spec fn window_of(b: Seq<u8>) -> Seq<u8> {
    if b.len() <= 1024 {
        b
    } else {
        b.subrange(0, 1024)
    }
}

/// An ASCII whitespace byte.
pub open spec fn is_ws_byte(c: u8) -> bool {
    c == 0x20 || c == 0x09 || c == 0x0A || c == 0x0C || c == 0x0D
}

/// The opening of an html tag, `<html`.
pub open spec fn html_open() -> Seq<u8> {
    seq![0x3Cu8, 0x68u8, 0x74u8, 0x6Du8, 0x6Cu8]
}

/// The language attribute introducer, `lang=`.
pub open spec fn lang_attr() -> Seq<u8> {
    seq![0x6Cu8, 0x61u8, 0x6Eu8, 0x67u8, 0x3Du8]
}

/// The opening of a meta tag, `<meta`.
pub open spec fn meta_open() -> Seq<u8> {
    seq![0x3Cu8, 0x6Du8, 0x65u8, 0x74u8, 0x61u8]
}

/// The charset introducer, `charset=`.
pub open spec fn charset_attr() -> Seq<u8> {
    seq![0x63u8, 0x68u8, 0x61u8, 0x72u8, 0x73u8, 0x65u8, 0x74u8, 0x3Du8]
}

/// The content attribute introducer, `content=`.
pub open spec fn content_attr() -> Seq<u8> {
    seq![0x63u8, 0x6Fu8, 0x6Eu8, 0x74u8, 0x65u8, 0x6Eu8, 0x74u8, 0x3Du8]
}

/// The literal `http-equiv="Content-Type"`.
pub open spec fn http_equiv_content_type() -> Seq<u8> {
    seq![
        0x68u8, 0x74u8, 0x74u8, 0x70u8, 0x2Du8, 0x65u8, 0x71u8, 0x75u8, 0x69u8, 0x76u8, 0x3Du8,
        0x22u8, 0x43u8, 0x6Fu8, 0x6Eu8, 0x74u8, 0x65u8, 0x6Eu8, 0x74u8, 0x2Du8, 0x54u8, 0x79u8,
        0x70u8, 0x65u8, 0x22u8,
    ]
}

/// First index at or after `i` holding ASCII whitespace or '>', else the
/// length of `s`.
pub open spec fn attr_end(s: Seq<u8>, i: int) -> int
    decreases s.len() - i,
    when 0 <= i <= s.len()
{
    if i >= s.len() {
        i
    } else if is_ws_byte(s[i]) || s[i] == 0x3E {
        i
    } else {
        attr_end(s, i + 1)
    }
}

/// First index at or after `i` holding ';' or ASCII whitespace, else the
/// length of `s`.
pub open spec fn charset_value_end(s: Seq<u8>, i: int) -> int
    decreases s.len() - i,
    when 0 <= i <= s.len()
{
    if i >= s.len() {
        i
    } else if s[i] == 0x3B || is_ws_byte(s[i]) {
        i
    } else {
        charset_value_end(s, i + 1)
    }
}

/// The text of a byte range, if the bytes are valid UTF-8; absent where
/// they are not.
pub open spec fn utf8_text(v: Seq<u8>) -> Option<Seq<char>> {
    if vstd::utf8::valid_utf8(v) {
        Some(vstd::utf8::decode_utf8(v))
    } else {
        None
    }
}

/// The declared language of the content: the value of the first `lang=`
/// after the first `<html` in the window. A quoted value runs between the
/// quote and its next occurrence; an unquoted one runs to the first ASCII
/// whitespace or '>', or to the window's end. The value must be text.
pub open spec fn lang_of(b: Seq<u8>) -> Option<Seq<char>> {
    let w = window_of(b);
    match find_sub(w, html_open()) {
        None => None,
        Some(hs) => {
            let rest = w.subrange(hs, w.len() as int);
            match find_sub(rest, lang_attr()) {
                None => None,
                Some(ls) => {
                    let after = rest.subrange(ls + 5, rest.len() as int);
                    if after.len() == 0 {
                        None
                    } else if after[0] == 0x22 || after[0] == 0x27 {
                        let tail = after.subrange(1, after.len() as int);
                        match find_sub(tail, seq![after[0]]) {
                            None => None,
                            Some(c) => utf8_text(tail.subrange(0, c)),
                        }
                    } else {
                        utf8_text(after.subrange(0, attr_end(after, 0)))
                    }
                },
            }
        },
    }
}

/// A charset declared directly as `charset="..."` (or with single quotes)
/// in a meta occurrence's trailing content.
pub open spec fn charset_case1(mc: Seq<u8>) -> Option<Seq<char>> {
    match find_sub(mc, charset_attr()) {
        None => None,
        Some(cs) => {
            let after = mc.subrange(cs + 8, mc.len() as int);
            if after.len() == 0 {
                None
            } else if after[0] == 0x22 || after[0] == 0x27 {
                let tail = after.subrange(1, after.len() as int);
                match find_sub(tail, seq![after[0]]) {
                    None => None,
                    Some(c) => utf8_text(tail.subrange(0, c)),
                }
            } else {
                None
            }
        },
    }
}

/// A charset declared through `http-equiv="Content-Type"` with a quoted
/// `content=` value holding `charset=`; the value runs to the first ';'
/// or ASCII whitespace within the quoted span, or to the span's end.
pub open spec fn charset_case2(mc: Seq<u8>) -> Option<Seq<char>> {
    match find_sub(mc, http_equiv_content_type()) {
        None => None,
        Some(he) => {
            let afteq = mc.subrange(he + 25, mc.len() as int);
            match find_sub(afteq, content_attr()) {
                None => None,
                Some(ct) => {
                    let afc = afteq.subrange(ct + 8, afteq.len() as int);
                    if afc.len() == 0 {
                        None
                    } else if afc[0] == 0x22 || afc[0] == 0x27 {
                        let tail = afc.subrange(1, afc.len() as int);
                        match find_sub(tail, seq![afc[0]]) {
                            None => None,
                            Some(ce) => {
                                let full = tail.subrange(0, ce);
                                match find_sub(full, charset_attr()) {
                                    None => None,
                                    Some(cp) => {
                                        let av = full.subrange(cp + 8, full.len() as int);
                                        utf8_text(av.subrange(0, charset_value_end(av, 0)))
                                    },
                                }
                            },
                        }
                    } else {
                        None
                    }
                },
            }
        },
    }
}

/// What one meta occurrence declares: the direct form, else the
/// http-equiv form.
pub open spec fn charset_of_meta(mc: Seq<u8>) -> Option<Seq<char>> {
    match charset_case1(mc) {
        Some(c) => Some(c),
        None => charset_case2(mc),
    }
}

/// The declared charset from position `pos` on: successive `<meta`
/// occurrences in the window are tried in order, each against the whole
/// remainder of the window; the first that declares a charset wins.
pub open spec fn charset_scan_from(w: Seq<u8>, pos: int) -> Option<Seq<char>>
    decreases w.len() - pos,
    when 0 <= pos <= w.len()
    via charset_scan_from_decreases
{
    match find_sub(w.subrange(pos, w.len() as int), meta_open()) {
        None => None,
        Some(i) => {
            match charset_of_meta(w.subrange(pos + i, w.len() as int)) {
                Some(c) => Some(c),
                None => charset_scan_from(w, pos + i + 1),
            }
        },
    }
}

#[via_fn]
proof fn charset_scan_from_decreases(w: Seq<u8>, pos: int) {
    let sub = w.subrange(pos, w.len() as int);
    match find_sub(sub, meta_open()) {
        Some(i) => {
            lemma_find_from_some(sub, meta_open(), 0, i);
        },
        None => {},
    }
}

/// The declared charset of the content.
pub open spec fn charset_of(b: Seq<u8>) -> Option<Seq<char>> {
    charset_scan_from(window_of(b), 0)
}

/// Position of the end of an unquoted attribute value: the first ASCII
/// whitespace or '>' in `s`, or the length of `s`.
fn scan_attr_end(s: &[u8]) -> (r: usize)
    ensures
        r as int == attr_end(s@, 0),
        r <= s@.len(),
{
    let n = s.len();
    let mut i: usize = 0;
    while i < n
        invariant
            i <= n,
            n == s@.len(),
            attr_end(s@, 0) == attr_end(s@, i as int),
        decreases n - i,
    {
        let c = s[i];
        if c == 0x20 || c == 0x09 || c == 0x0A || c == 0x0C || c == 0x0D || c == 0x3E {
            return i;
        }
        i += 1;
    }
    i
}

/// Position of the end of a charset value inside a content attribute: the
/// first ';' or ASCII whitespace in `s`, or the length of `s`.
fn scan_charset_value_end(s: &[u8]) -> (r: usize)
    ensures
        r as int == charset_value_end(s@, 0),
        r <= s@.len(),
{
    let n = s.len();
    let mut i: usize = 0;
    while i < n
        invariant
            i <= n,
            n == s@.len(),
            charset_value_end(s@, 0) == charset_value_end(s@, i as int),
        decreases n - i,
    {
        let c = s[i];
        if c == 0x3B || c == 0x20 || c == 0x09 || c == 0x0A || c == 0x0C || c == 0x0D {
            return i;
        }
        i += 1;
    }
    i
}

/// Turn an extracted byte range into text, if it is valid UTF-8.
fn bytes_to_text(v: &[u8]) -> (r: Option<String>)
    ensures
        r is Some <==> utf8_text(v@) is Some,
        r matches Some(s) ==> Some(s@) == utf8_text(v@),
{
    string_from_utf8(vstd::slice::slice_to_vec(v))
}

/// Detect the language of an HTML document: the value of the first `lang=`
/// attribute after the first `<html` within the search window.
pub fn detect_language(html_content: &[u8]) -> (r: Option<String>)
    ensures
        r is Some <==> lang_of(html_content@) is Some,
        r matches Some(s) ==> Some(s@) == lang_of(html_content@),
{
    let len = html_content.len();
    let limit: usize = if len < 1024 {
        len
    } else {
        1024
    };
    let area = &html_content[0..limit];
    proof {
        assert(area@ =~= window_of(html_content@));
    }
    let needle_html = [0x3Cu8, 0x68u8, 0x74u8, 0x6Du8, 0x6Cu8];
    proof {
        assert(needle_html@ =~= html_open());
    }
    let hs = match find_subsequence(area, needle_html.as_slice()) {
        None => {
            return None;
        },
        Some(hs) => hs,
    };
    proof {
        lemma_find_from_some(area@, html_open(), 0, hs as int);
    }
    let rest = &area[hs..limit];
    let rlen = rest.len();
    let needle_lang = [0x6Cu8, 0x61u8, 0x6Eu8, 0x67u8, 0x3Du8];
    proof {
        assert(needle_lang@ =~= lang_attr());
    }
    let ls = match find_subsequence(rest, needle_lang.as_slice()) {
        None => {
            return None;
        },
        Some(ls) => ls,
    };
    proof {
        lemma_find_from_some(rest@, lang_attr(), 0, ls as int);
    }
    let after = &rest[ls + 5..rlen];
    let alen = after.len();
    if alen == 0 {
        return None;
    }
    let q = after[0];
    if q == 0x22 || q == 0x27 {
        let tail = &after[1..alen];
        let qn = [q];
        proof {
            assert(qn@ =~= seq![q]);
        }
        match find_subsequence(tail, qn.as_slice()) {
            None => None,
            Some(c) => {
                proof {
                    lemma_find_from_some(tail@, seq![q], 0, c as int);
                }
                bytes_to_text(&tail[0..c])
            },
        }
    } else {
        let end = scan_attr_end(after);
        bytes_to_text(&after[0..end])
    }
}

/// One meta occurrence's direct `charset="..."` declaration, if any.
fn try_charset_direct(mc: &[u8]) -> (r: Option<String>)
    ensures
        r is Some <==> charset_case1(mc@) is Some,
        r matches Some(s) ==> Some(s@) == charset_case1(mc@),
{
    let mlen = mc.len();
    let needle_cs = [0x63u8, 0x68u8, 0x61u8, 0x72u8, 0x73u8, 0x65u8, 0x74u8, 0x3Du8];
    proof {
        assert(needle_cs@ =~= charset_attr());
    }
    let cs = match find_subsequence(mc, needle_cs.as_slice()) {
        None => {
            return None;
        },
        Some(cs) => cs,
    };
    proof {
        lemma_find_from_some(mc@, charset_attr(), 0, cs as int);
    }
    let after = &mc[cs + 8..mlen];
    let alen = after.len();
    if alen == 0 {
        return None;
    }
    let q = after[0];
    if q == 0x22 || q == 0x27 {
        let tail = &after[1..alen];
        let qn = [q];
        proof {
            assert(qn@ =~= seq![q]);
        }
        match find_subsequence(tail, qn.as_slice()) {
            None => None,
            Some(c) => {
                proof {
                    lemma_find_from_some(tail@, seq![q], 0, c as int);
                }
                bytes_to_text(&tail[0..c])
            },
        }
    } else {
        None
    }
}

/// One meta occurrence's `http-equiv="Content-Type"` declaration, if any.
fn try_charset_http_equiv(mc: &[u8]) -> (r: Option<String>)
    ensures
        r is Some <==> charset_case2(mc@) is Some,
        r matches Some(s) ==> Some(s@) == charset_case2(mc@),
{
    let mlen = mc.len();
    let needle_he = [
        0x68u8, 0x74u8, 0x74u8, 0x70u8, 0x2Du8, 0x65u8, 0x71u8, 0x75u8, 0x69u8, 0x76u8, 0x3Du8,
        0x22u8, 0x43u8, 0x6Fu8, 0x6Eu8, 0x74u8, 0x65u8, 0x6Eu8, 0x74u8, 0x2Du8, 0x54u8, 0x79u8,
        0x70u8, 0x65u8, 0x22u8,
    ];
    proof {
        assert(needle_he@ =~= http_equiv_content_type());
    }
    let he = match find_subsequence(mc, needle_he.as_slice()) {
        None => {
            return None;
        },
        Some(he) => he,
    };
    proof {
        lemma_find_from_some(mc@, http_equiv_content_type(), 0, he as int);
    }
    let afteq = &mc[he + 25..mlen];
    let aqlen = afteq.len();
    let needle_ct = [0x63u8, 0x6Fu8, 0x6Eu8, 0x74u8, 0x65u8, 0x6Eu8, 0x74u8, 0x3Du8];
    proof {
        assert(needle_ct@ =~= content_attr());
    }
    let ct = match find_subsequence(afteq, needle_ct.as_slice()) {
        None => {
            return None;
        },
        Some(ct) => ct,
    };
    proof {
        lemma_find_from_some(afteq@, content_attr(), 0, ct as int);
    }
    let afc = &afteq[ct + 8..aqlen];
    let aclen = afc.len();
    if aclen == 0 {
        return None;
    }
    let q = afc[0];
    if q == 0x22 || q == 0x27 {
        let tail = &afc[1..aclen];
        let qn = [q];
        proof {
            assert(qn@ =~= seq![q]);
        }
        let ce = match find_subsequence(tail, qn.as_slice()) {
            None => {
                return None;
            },
            Some(ce) => ce,
        };
        proof {
            lemma_find_from_some(tail@, seq![q], 0, ce as int);
        }
        let full = &tail[0..ce];
        let needle_cs = [0x63u8, 0x68u8, 0x61u8, 0x72u8, 0x73u8, 0x65u8, 0x74u8, 0x3Du8];
        proof {
            assert(needle_cs@ =~= charset_attr());
        }
        match find_subsequence(full, needle_cs.as_slice()) {
            None => None,
            Some(cp) => {
                proof {
                    lemma_find_from_some(full@, charset_attr(), 0, cp as int);
                }
                let av = &full[cp + 8..ce];
                let vend = scan_charset_value_end(av);
                bytes_to_text(&av[0..vend])
            },
        }
    } else {
        None
    }
}

/// What one meta occurrence declares: the direct form, else the
/// http-equiv form.
fn try_meta(mc: &[u8]) -> (r: Option<String>)
    ensures
        r is Some <==> charset_of_meta(mc@) is Some,
        r matches Some(s) ==> Some(s@) == charset_of_meta(mc@),
{
    match try_charset_direct(mc) {
        Some(s) => Some(s),
        None => try_charset_http_equiv(mc),
    }
}

/// Detect the character set an HTML document declares in a `<meta` tag
/// within the search window, in either the direct or the http-equiv form.
pub fn detect_encoding(html_content: &[u8]) -> (r: Option<String>)
    ensures
        r is Some <==> charset_of(html_content@) is Some,
        r matches Some(s) ==> Some(s@) == charset_of(html_content@),
{
    let len = html_content.len();
    let limit: usize = if len < 1024 {
        len
    } else {
        1024
    };
    let area = &html_content[0..limit];
    proof {
        assert(area@ =~= window_of(html_content@));
    }
    let needle_meta = [0x3Cu8, 0x6Du8, 0x65u8, 0x74u8, 0x61u8];
    proof {
        assert(needle_meta@ =~= meta_open());
    }
    let mut pos: usize = 0;
    loop
        invariant
            pos <= limit,
            limit == area@.len(),
            area@ == window_of(html_content@),
            needle_meta@ == meta_open(),
            charset_scan_from(area@, 0) == charset_scan_from(area@, pos as int),
        decreases limit - pos,
    {
        let sub = &area[pos..limit];
        match find_subsequence(sub, needle_meta.as_slice()) {
            None => {
                return None;
            },
            Some(i) => {
                proof {
                    lemma_find_from_some(sub@, meta_open(), 0, i as int);
                }
                let mpos = pos + i;
                let mc = &area[mpos..limit];
                match try_meta(mc) {
                    Some(s) => {
                        return Some(s);
                    },
                    None => {
                        pos = mpos + 1;
                    },
                }
            },
        }
    }
}

/// Scan an HTML document for both declarations at once: the language from
/// the html tag and the character set from the meta tags. The scan always
/// yields a record; either field may be absent.
pub fn detect_html_metadata(html_content: &[u8]) -> (r: Option<HtmlMetadata>)
    ensures
        r is Some,
        r matches Some(m) ==> (m.lang is Some <==> lang_of(html_content@) is Some),
        r matches Some(m) ==> (m.lang matches Some(s) ==> Some(s@) == lang_of(html_content@)),
        r matches Some(m) ==> (m.encoding is Some <==> charset_of(html_content@) is Some),
        r matches Some(m) ==> (m.encoding matches Some(s) ==> Some(s@) == charset_of(
            html_content@,
        )),
{
    let lang = detect_language(html_content);
    let encoding = detect_encoding(html_content);
    Some(HtmlMetadata { lang, encoding })
}

} // verus!
