//! Maps a selector to its encoder and its decoder.

use vstd::prelude::*;
use crate::algorithm::Algorithm;
use crate::codec::{
    brotli_decode, brotli_encode, brotli_payload, brotli_stream, bzip2_decode, bzip2_encode,
    bzip2_payload, bzip2_stream, gzip_decode, gzip_encode, gzip_payload, gzip_stream, xz_decode,
    xz_encode, xz_payload, xz_stream, zlib_decode, zlib_encode, zlib_payload, zlib_stream,
};
use crate::frame::{lemma_signatures_disjoint, spec_framed_as};

verus! {

/// Base-two logarithm of the window that Brotli streams are written with.
pub const BROTLI_WINDOW: u32 = 22;

/// Size in bytes of the buffer handed to the Brotli reader and writer.
pub const BROTLI_BUFFER: usize = 4096;

/// The container that the codec of `algorithm` writes for `data` at `level`,
/// or `None` where the codec fails on them.
pub open spec fn stream_of(algorithm: Algorithm, data: Seq<u8>, level: u32) -> Option<Seq<u8>> {
    match algorithm {
        Algorithm::Zlib => zlib_stream(data, level),
        Algorithm::Gzip => gzip_stream(data, level),
        Algorithm::Brotli => brotli_stream(data, BROTLI_BUFFER, level, BROTLI_WINDOW),
        Algorithm::Bzip2 => bzip2_stream(data, level),
        Algorithm::Xz => xz_stream(data, level),
    }
}

/// What the codec of `algorithm` reads out of `stream`, or `None` where it
/// refuses the bytes.
pub open spec fn payload_of(algorithm: Algorithm, stream: Seq<u8>) -> Option<Seq<u8>> {
    match algorithm {
        Algorithm::Zlib => zlib_payload(stream),
        Algorithm::Gzip => gzip_payload(stream),
        Algorithm::Brotli => brotli_payload(stream, BROTLI_BUFFER),
        Algorithm::Bzip2 => bzip2_payload(stream),
        Algorithm::Xz => xz_payload(stream),
    }
}

/// `out` is the finished container of `data` under `algorithm` at `level`:
/// the codec wrote it, reads `data` back out of it, and it is framed as that
/// algorithm's container and no other's. A Brotli container, which has no
/// signature, opens with the byte that encodes its window.
pub open spec fn is_container(algorithm: Algorithm, data: Seq<u8>, level: u32, out: Seq<u8>) -> bool {
    &&& stream_of(algorithm, data, level) == Some(out)
    &&& payload_of(algorithm, out) == Some(data)
    &&& spec_framed_as(algorithm, out)
    &&& algorithm == Algorithm::Brotli ==> out.len() >= 1 && out[0] % 16 == 2 * (BROTLI_WINDOW - 17)
        + 1
}

/// A container is never empty, not even that of an empty payload: it holds
/// at least its framing.
pub proof fn lemma_container_not_empty(
    algorithm: Algorithm,
    data: Seq<u8>,
    level: u32,
    out: Seq<u8>,
)
    requires
        is_container(algorithm, data, level, out),
    ensures
        out.len() >= 1,
{
}

/// Writes all of `data` through the encoder of `algorithm` and finalises the
/// container. It succeeds exactly where the codec does, and then hands back
/// the container of `data`.
pub fn encode(algorithm: Algorithm, data: &[u8], level: u32) -> (r: Result<Vec<u8>, std::io::Error>)
    requires
        algorithm.accepts(level),
    ensures
        r matches Ok(out) ==> is_container(algorithm, data@, level, out@),
        r is Err ==> stream_of(algorithm, data@, level) is None,
{
    let r = match algorithm {
        Algorithm::Zlib => zlib_encode(data, level),
        Algorithm::Gzip => gzip_encode(data, level),
        Algorithm::Brotli => brotli_encode(data, BROTLI_BUFFER, level, BROTLI_WINDOW),
        Algorithm::Bzip2 => bzip2_encode(data, level),
        Algorithm::Xz => xz_encode(data, level),
    };
    proof {
        if r is Ok {
            lemma_signatures_disjoint(r->Ok_0@);
        }
    }
    r
}

/// Reads `stream` to its end through the decoder of `algorithm`.
pub fn decode(algorithm: Algorithm, stream: &[u8]) -> (r: Result<Vec<u8>, std::io::Error>)
    ensures
        r matches Ok(out) ==> payload_of(algorithm, stream@) == Some(out@),
        r is Err ==> payload_of(algorithm, stream@) is None,
{
    match algorithm {
        Algorithm::Zlib => zlib_decode(stream),
        Algorithm::Gzip => gzip_decode(stream),
        Algorithm::Brotli => brotli_decode(stream, BROTLI_BUFFER),
        Algorithm::Bzip2 => bzip2_decode(stream),
        Algorithm::Xz => xz_decode(stream),
    }
}

} // verus!
