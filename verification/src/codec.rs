//! The boundary to the character-encoding machinery: encodings resolved by
//! label or picked by the statistical detector, the streaming decoder fed
//! chunk by chunk, and UTF-8 conversion. Every item with a trusted body
//! states only what the underlying library's source and documentation show.

use crate::meta::EncodingId;
use vstd::prelude::*;

verus! {

#[verifier::external_type_specification]
#[verifier::external_body]
pub struct ExEncoding(encoding_rs::Encoding);

#[verifier::external_type_specification]
#[verifier::external_body]
pub struct ExDecoder(encoding_rs::Decoder);

#[verifier::external_type_specification]
#[verifier::external_body]
pub struct ExEncodingDetector(chardetng::EncodingDetector);

/// The canonical name of an encoding instance, as Encoding::name returns it.
pub uninterp spec fn enc_name(e: &encoding_rs::Encoding) -> Seq<char>;

/// The canonical encoding name, if any, that the codec library's label
/// lookup (the WHATWG "get an encoding" algorithm) assigns to a label.
pub uninterp spec fn label_lookup(label: Seq<char>) -> Option<Seq<char>>;

/// The text produced by decoding a byte sequence with the named encoding:
/// the WHATWG decode with replacement and byte-order-mark sniffing, a
/// function of the encoding name and the bytes alone.
pub uninterp spec fn decoded(name: Seq<char>, bytes: Seq<u8>) -> Seq<char>;

/// The canonical name of the encoding that the statistical detector guesses
/// from a byte stream, a function of the bytes alone.
pub uninterp spec fn guessed(bytes: Seq<u8>) -> Seq<char>;

/// The canonical name of the encoding a streaming decoder decodes to.
pub uninterp spec fn decoder_name(d: encoding_rs::Decoder) -> Seq<char>;

/// All bytes a streaming decoder has consumed so far.
pub uninterp spec fn decoder_fed(d: encoding_rs::Decoder) -> Seq<u8>;

/// All text a streaming decoder has emitted so far.
pub uninterp spec fn decoder_emitted(d: encoding_rs::Decoder) -> Seq<char>;

/// Whether a streaming decoder has reached the end of its stream.
pub uninterp spec fn decoder_done(d: encoding_rs::Decoder) -> bool;

/// An upper bound on the output a streaming decoder still holds back after
/// the end of its stream was announced; it shrinks on every flush round.
pub uninterp spec fn decoder_pending(d: encoding_rs::Decoder) -> nat;

/// All bytes a statistical detector has seen so far.
pub uninterp spec fn detector_fed(d: chardetng::EncodingDetector) -> Seq<u8>;

/// Relies on encoding_rs::Encoding::for_label: a label that names an
/// encoding in the registry resolves to that encoding; any other label
/// resolves to nothing.
#[verifier::external_body]
pub(crate) fn encoding_for_label_str(label: &str) -> (r: Option<&'static encoding_rs::Encoding>)
    ensures
        match r {
            Some(e) => label_lookup(label@) == Some(enc_name(e)),
            None => label_lookup(label@) is None,
        },
{
    encoding_rs::Encoding::for_label(label.as_bytes())
}

/// Relies on the codec library's encoding statics: each is the unique
/// encoding of the corresponding canonical name.
#[verifier::external_body]
pub(crate) fn encoding_of_id(id: EncodingId) -> (r: &'static encoding_rs::Encoding)
    ensures
        enc_name(r) == id.spec_name(),
{
    match id {
        EncodingId::Utf8 => encoding_rs::UTF_8, EncodingId::Utf16Le => encoding_rs::UTF_16LE,
        EncodingId::Utf16Be => encoding_rs::UTF_16BE, EncodingId::ShiftJis => encoding_rs::SHIFT_JIS,
        EncodingId::EucKr => encoding_rs::EUC_KR, EncodingId::Gb18030 => encoding_rs::GB18030,
        EncodingId::Big5 => encoding_rs::BIG5, EncodingId::Windows874 => encoding_rs::WINDOWS_874,
        EncodingId::Windows1250 => encoding_rs::WINDOWS_1250, EncodingId::Windows1251 => encoding_rs::WINDOWS_1251,
        EncodingId::Windows1252 => encoding_rs::WINDOWS_1252, EncodingId::Windows1253 => encoding_rs::WINDOWS_1253,
        EncodingId::Windows1254 => encoding_rs::WINDOWS_1254, EncodingId::Windows1255 => encoding_rs::WINDOWS_1255,
        EncodingId::Windows1256 => encoding_rs::WINDOWS_1256, EncodingId::Windows1257 => encoding_rs::WINDOWS_1257,
        EncodingId::Windows1258 => encoding_rs::WINDOWS_1258,
    }
}

/// Relies on encoding_rs::Encoding::new_decoder: a fresh decoder for one
/// stream of this encoding, with byte-order-mark sniffing, that has
/// consumed and emitted nothing yet.
#[verifier::external_body]
pub(crate) fn new_stream_decoder(e: &'static encoding_rs::Encoding) -> (d: encoding_rs::Decoder)
    ensures
        decoder_name(d) == enc_name(e),
        decoder_fed(d) == Seq::<u8>::empty(),
        decoder_emitted(d) == Seq::<char>::empty(),
        decoder_done(d) == false,
{
    e.new_decoder()
}

/// Relies on encoding_rs::Decoder::decode_to_str called with `last` false:
/// consumes a prefix of `src`, emits the corresponding text, and consumes
/// all of `src` unless the output space of `cap` bytes was filled first.
/// The space must comfortably hold one character of output, or the library
/// documents that no progress is made; with `cap` at least 64, a round
/// that reports the output full has consumed at least one byte.
#[verifier::external_body]
pub(crate) fn decode_chunk(dec: &mut encoding_rs::Decoder, src: &[u8], cap: usize) -> (r: (
    bool,
    usize,
    String,
))
    requires
        decoder_done(*old(dec)) == false,
        cap >= 64,
    ensures
        r.1 <= src@.len(),
        decoder_name(*final(dec)) == decoder_name(*old(dec)),
        decoder_fed(*final(dec)) == decoder_fed(*old(dec)) + src@.subrange(0, r.1 as int),
        decoder_emitted(*final(dec)) == decoder_emitted(*old(dec)) + r.2@,
        decoder_done(*final(dec)) == false,
        !r.0 ==> r.1 == src@.len(),
        r.0 ==> r.1 >= 1,
{
    let mut buf = vec![0u8; cap];
    let dst = core::str::from_utf8_mut(&mut buf).unwrap();
    let (result, read, written, _) = dec.decode_to_str(src, dst, false);
    let full = matches!(result, encoding_rs::CoderResult::OutputFull);
    (full, read, dst[..written].to_string())
}

/// Relies on encoding_rs::Decoder::decode_to_str called with empty input
/// and `last` true: drains pending output into a space of `cap` bytes, and
/// once it reports the input empty the stream has ended and everything the
/// decoder emitted, taken together, is the decode of everything it
/// consumed, per the WHATWG decode with replacement and byte-order-mark
/// sniffing for its encoding. The pending output is finite, and a round
/// with room for a character drains some of it, or the library documents
/// that no progress is made.
#[verifier::external_body]
pub(crate) fn finish_decode(dec: &mut encoding_rs::Decoder, cap: usize) -> (r: (bool, String))
    requires
        decoder_done(*old(dec)) == false,
        cap >= 64,
    ensures
        r.0 ==> decoder_pending(*final(dec)) < decoder_pending(*old(dec)),
        decoder_name(*final(dec)) == decoder_name(*old(dec)),
        decoder_fed(*final(dec)) == decoder_fed(*old(dec)),
        decoder_emitted(*final(dec)) == decoder_emitted(*old(dec)) + r.1@,
        decoder_done(*final(dec)) == !r.0,
        decoder_done(*final(dec)) ==> decoder_emitted(*final(dec)) == decoded(
            decoder_name(*final(dec)),
            decoder_fed(*final(dec)),
        ),
{
    let mut buf = vec![0u8; cap];
    let dst = core::str::from_utf8_mut(&mut buf).unwrap();
    let empty: &[u8] = &[];
    let (result, _, written, _) = dec.decode_to_str(empty, dst, true);
    let full = matches!(result, encoding_rs::CoderResult::OutputFull);
    (full, dst[..written].to_string())
}

/// Relies on chardetng::EncodingDetector::new: a fresh detector has seen no
/// bytes.
#[verifier::external_body]
pub(crate) fn new_sniff_detector() -> (d: chardetng::EncodingDetector)
    ensures
        detector_fed(d) == Seq::<u8>::empty(),
{
    chardetng::EncodingDetector::new()
}

/// Relies on chardetng::EncodingDetector::feed called with `last` false:
/// informs the detector of the next chunk of the stream.
#[verifier::external_body]
pub(crate) fn sniff_feed(d: &mut chardetng::EncodingDetector, bytes: &[u8])
    ensures
        detector_fed(*final(d)) == detector_fed(*old(d)) + bytes@,
{
    d.feed(bytes, false);
}

/// Relies on chardetng::EncodingDetector::guess called with no top-level
/// domain and UTF-8 allowed: the guess is a function of the bytes the
/// detector has seen alone.
#[verifier::external_body]
pub(crate) fn sniff_guess(d: &chardetng::EncodingDetector) -> (r: &'static encoding_rs::Encoding)
    ensures
        enc_name(r) == guessed(detector_fed(*d)),
{
    d.guess(None, true)
}

/// Relies on String::from_utf8: it succeeds exactly on valid UTF-8 and
/// returns the text those bytes encode.
#[verifier::external_body]
pub(crate) fn string_from_utf8(bytes: Vec<u8>) -> (r: Option<String>)
    ensures
        r is Some <==> vstd::utf8::valid_utf8(bytes@),
        r matches Some(s) ==> s@ == vstd::utf8::decode_utf8(bytes@),
{
    String::from_utf8(bytes).ok()
}

} // verus!
