//! The streaming decode loop: a body pass over the input through a bounded
//! staging buffer, then an end-of-stream flush, accumulating the text in
//! input order.

use crate::codec::decode_chunk;
use crate::codec::decoded;
use crate::codec::decoder_done;
use crate::codec::decoder_emitted;
use crate::codec::decoder_fed;
use crate::codec::decoder_name;
use crate::codec::decoder_pending;
use crate::codec::enc_name;
use crate::codec::finish_decode;
use crate::codec::new_stream_decoder;
use vstd::prelude::*;

verus! {

/// The staging-buffer size for an input of the given length: small inputs
/// get a small buffer, larger inputs larger ones.
pub open spec fn spec_buffer_capacity(len: nat) -> nat {
    if len > 15000 {
        2048
    } else if len >= 1000 {
        1024
    } else {
        512
    }
}

/// A larger input never gets a smaller staging buffer than a smaller one.
pub proof fn lemma_buffer_capacity_monotonic(a: nat, b: nat)
    requires
        a <= b,
    ensures
        spec_buffer_capacity(a) <= spec_buffer_capacity(b),
{
}

fn buffer_capacity(len: usize) -> (c: usize)
    ensures
        c == spec_buffer_capacity(len as nat),
        c >= 64,
{
    if len > 15000 {
        2048
    } else if len >= 1000 {
        1024
    } else {
        512
    }
}

/// Decode all of `content` with encoding `e`, staging the output through a
/// buffer of `cap` bytes. The result does not depend on `cap`.
fn decode_all(content: &[u8], e: &'static encoding_rs::Encoding, cap: usize) -> (r: String)
    requires
        cap >= 64,
    ensures
        r@ == decoded(enc_name(e), content@),
{
    let clen = content.len();
    let mut dec = new_stream_decoder(e);
    let mut out = String::new();
    let mut total: usize = 0;
    loop
        invariant
            clen == content@.len(),
            total <= clen,
            cap >= 64,
            decoder_done(dec) == false,
            decoder_name(dec) == enc_name(e),
            decoder_fed(dec) == content@.subrange(0, total as int),
            decoder_emitted(dec) == out@,
        ensures
            decoder_done(dec) == false,
            decoder_name(dec) == enc_name(e),
            decoder_fed(dec) == content@,
            decoder_emitted(dec) == out@,
        decreases clen - total,
    {
        let (full, read, piece) = decode_chunk(&mut dec, &content[total..clen], cap);
        proof {
            assert(content@.subrange(0, total as int) + content@.subrange(
                total as int,
                clen as int,
            ).subrange(0, read as int) =~= content@.subrange(0, total + read));
        }
        total = total + read;
        out.append(piece.as_str());
        if !full {
            proof {
                assert(content@.subrange(0, clen as int) =~= content@);
            }
            break;
        }
    }
    loop
        invariant_except_break
            decoder_done(dec) == false,
        invariant
            cap >= 64,
            decoder_name(dec) == enc_name(e),
            decoder_fed(dec) == content@,
            decoder_emitted(dec) == out@,
        ensures
            decoder_done(dec),
            decoder_name(dec) == enc_name(e),
            decoder_fed(dec) == content@,
            decoder_emitted(dec) == out@,
            decoder_emitted(dec) == decoded(decoder_name(dec), decoder_fed(dec)),
        decreases decoder_pending(dec),
    {
        let (full, piece) = finish_decode(&mut dec, cap);
        out.append(piece.as_str());
        if !full {
            break;
        }
    }
    out
}

/// Decode all of `content` with encoding `e`, with the staging buffer sized
/// by the input-length tier. The tier affects only internal buffering,
/// never the text produced.
pub(crate) fn decode_with_encoding(content: &[u8], e: &'static encoding_rs::Encoding) -> (r:
    String)
    ensures
        r@ == decoded(enc_name(e), content@),
{
    let cap = buffer_capacity(content.len());
    decode_all(content, e, cap)
}

} // verus!
