//! Compression and decompression of whole byte sequences.

use vstd::prelude::*;
use crate::algorithm::Algorithm;
use crate::failure::Failure;
use crate::frame::{framed_as, spec_announced, spec_framed_as, spec_sniff};
use crate::registry::{decode, encode, is_container, payload_of, stream_of};

verus! {

/// What decompression under `algorithm` yields for `stream`: the codec's
/// reading of it where the bytes are framed as that algorithm's container,
/// and nothing otherwise.
pub open spec fn spec_decompress(algorithm: Algorithm, stream: Seq<u8>) -> Option<Seq<u8>> {
    if spec_framed_as(algorithm, stream) {
        payload_of(algorithm, stream)
    } else {
        None
    }
}

/// Turns what a codec handed back into the operation's result: the bytes on
/// success, and `failure` in place of the codec's own error.
pub fn surface(outcome: Result<Vec<u8>, std::io::Error>, failure: Failure) -> (r: Result<
    Vec<u8>,
    Failure,
>)
    ensures
        outcome matches Ok(bytes) ==> r == Ok::<Vec<u8>, Failure>(bytes),
        outcome is Err ==> r == Err::<Vec<u8>, Failure>(failure),
{
    match outcome {
        Ok(bytes) => Ok(bytes),
        Err(_) => Err(failure),
    }
}

/// Compresses `data` under `algorithm`. The level is first brought into the
/// algorithm's range. On success the result is the finished container of
/// `data`; the only failure is `CodecEncodeFailure`, and it comes exactly
/// where the codec writes no container for `data` at that level.
pub fn compress(data: &[u8], algorithm: Algorithm, level: u32) -> (r: Result<Vec<u8>, Failure>)
    ensures
        r matches Ok(out) ==> is_container(
            algorithm,
            data@,
            algorithm.spec_clamp_level(level),
            out@,
        ),
        r matches Err(e) ==> e == Failure::CodecEncodeFailure && stream_of(
            algorithm,
            data@,
            algorithm.spec_clamp_level(level),
        ) is None,
{
    let effective: u32 = algorithm.clamp_level(level);
    surface(encode(algorithm, data, effective), Failure::CodecEncodeFailure)
}

/// Restores the bytes held in `stream`, a container of `algorithm`. Bytes
/// that are framed as another algorithm's container, or that the codec
/// refuses, give `CodecDecodeFailure`; nothing else can fail.
pub fn decompress(stream: &[u8], algorithm: Algorithm) -> (r: Result<Vec<u8>, Failure>)
    ensures
        r matches Ok(out) ==> spec_decompress(algorithm, stream@) == Some(out@),
        r matches Err(e) ==> e == Failure::CodecDecodeFailure && spec_decompress(
            algorithm,
            stream@,
        ) is None,
{
    if framed_as(algorithm, stream) {
        surface(decode(algorithm, stream), Failure::CodecDecodeFailure)
    } else {
        Err(Failure::CodecDecodeFailure)
    }
}

/// Round trip: whatever `compress` returned for `data` under `algorithm`,
/// at any level, `decompress` under the same algorithm restores to `data`.
pub proof fn lemma_round_trip(algorithm: Algorithm, data: Seq<u8>, level: u32, out: Seq<u8>)
    requires
        is_container(algorithm, data, algorithm.spec_clamp_level(level), out),
    ensures
        spec_decompress(algorithm, out) == Some(data),
{
}

/// Selector mismatch: a container written under one algorithm is refused by
/// `decompress` under any other.
pub proof fn lemma_mismatch_refused(
    written: Algorithm,
    read: Algorithm,
    data: Seq<u8>,
    level: u32,
    out: Seq<u8>,
)
    requires
        is_container(written, data, written.spec_clamp_level(level), out),
        written != read,
    ensures
        spec_decompress(read, out) is None,
{
    assert(spec_sniff(out) == spec_announced(written));
    assert(spec_announced(written) != spec_announced(read));
}

} // verus!
