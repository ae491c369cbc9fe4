//! The calls into the codec crates. Nothing in this file is proved: each
//! function states what the crate it calls is relied upon to do.

use vstd::prelude::*;
use crate::frame::{opens_as_bzip2, opens_as_gzip, opens_as_xz, opens_as_zlib};

verus! {

/// The error that the codec crates report through `std::io`.
#[verifier::external_type_specification]
#[verifier::external_body]
pub struct ExIoError(std::io::Error);

/// The zlib stream that flate2 writes for `data` at `level`, or `None`
/// where it fails on them.
pub uninterp spec fn zlib_stream(data: Seq<u8>, level: u32) -> Option<Seq<u8>>;

/// What flate2 reads out of `stream` as zlib, or `None` where it refuses it.
pub uninterp spec fn zlib_payload(stream: Seq<u8>) -> Option<Seq<u8>>;

/// The gzip member that flate2 writes for `data` at `level`, or `None`
/// where it fails on them.
pub uninterp spec fn gzip_stream(data: Seq<u8>, level: u32) -> Option<Seq<u8>>;

/// What flate2 reads out of `stream` as gzip, or `None` where it refuses it.
pub uninterp spec fn gzip_payload(stream: Seq<u8>) -> Option<Seq<u8>>;

/// The Brotli stream that the brotli crate, built with `portable-float`,
/// writes for `data` at `quality`, with a window of `2^lgwin` bytes, flushed
/// once before it is closed, or `None` where it fails on them.
pub uninterp spec fn brotli_stream(data: Seq<u8>, buffer: usize, quality: u32, lgwin: u32) -> Option<
    Seq<u8>,
>;

/// What the brotli crate reads out of `stream`, or `None` where it refuses it.
pub uninterp spec fn brotli_payload(stream: Seq<u8>, buffer: usize) -> Option<Seq<u8>>;

/// The bzip2 stream that the bzip2 crate writes for `data` at `level`, or
/// `None` where it fails on them.
pub uninterp spec fn bzip2_stream(data: Seq<u8>, level: u32) -> Option<Seq<u8>>;

/// What the bzip2 crate reads out of `stream`, or `None` where it refuses it.
pub uninterp spec fn bzip2_payload(stream: Seq<u8>) -> Option<Seq<u8>>;

/// The xz stream that xz2 writes for `data` at preset `level`, or `None`
/// where it fails on them.
pub uninterp spec fn xz_stream(data: Seq<u8>, level: u32) -> Option<Seq<u8>>;

/// What xz2 reads out of `stream`, or `None` where it refuses it.
pub uninterp spec fn xz_payload(stream: Seq<u8>) -> Option<Seq<u8>>;

/// Runs `flate2::write::ZlibEncoder` over `data` into a fresh vector and
/// finishes it. Relied upon: whether it succeeds, and with what, depends on
/// `data` and `level` alone; the stream opens with a zlib header; and
/// `flate2::read::ZlibDecoder` reads `data` back out of it. Levels above 9
/// are left out: flate2 documents the scale 0 to 9.
#[verifier::external_body]
pub(crate) fn zlib_encode(data: &[u8], level: u32) -> (r: Result<Vec<u8>, std::io::Error>)
    requires
        level <= 9,
    ensures
        r matches Ok(out) ==> zlib_stream(data@, level) == Some(out@),
        r is Err ==> zlib_stream(data@, level) is None,
        r matches Ok(out) ==> zlib_payload(out@) == Some(data@),
        r matches Ok(out) ==> opens_as_zlib(out@),
{
    let mut sink = flate2::write::ZlibEncoder::new(Vec::new(), flate2::Compression::new(level));
    std::io::Write::write_all(&mut sink, data)?;
    sink.finish()
}

/// Reads `stream` to its end through `flate2::read::ZlibDecoder`. Relied
/// upon: whether it succeeds, and with what, depends on `stream` alone.
#[verifier::external_body]
pub(crate) fn zlib_decode(stream: &[u8]) -> (r: Result<Vec<u8>, std::io::Error>)
    ensures
        r matches Ok(out) ==> zlib_payload(stream@) == Some(out@),
        r is Err ==> zlib_payload(stream@) is None,
{
    let mut out = Vec::new();
    std::io::Read::read_to_end(&mut flate2::read::ZlibDecoder::new(stream), &mut out)?;
    Ok(out)
}

/// Runs `flate2::write::GzEncoder` over `data` into a fresh vector and
/// finishes it. Relied upon: whether it succeeds, and with what, depends on
/// `data` and `level` alone (the header carries no time stamp, no file name
/// and no host system); the member opens with `1f 8b`; and
/// `flate2::read::GzDecoder` reads `data` back out of it.
#[verifier::external_body]
pub(crate) fn gzip_encode(data: &[u8], level: u32) -> (r: Result<Vec<u8>, std::io::Error>)
    requires
        level <= 9,
    ensures
        r matches Ok(out) ==> gzip_stream(data@, level) == Some(out@),
        r is Err ==> gzip_stream(data@, level) is None,
        r matches Ok(out) ==> gzip_payload(out@) == Some(data@),
        r matches Ok(out) ==> opens_as_gzip(out@),
{
    let mut sink = flate2::write::GzEncoder::new(Vec::new(), flate2::Compression::new(level));
    std::io::Write::write_all(&mut sink, data)?;
    sink.finish()
}

/// Reads `stream` to its end through `flate2::read::GzDecoder`. Relied upon:
/// whether it succeeds, and with what, depends on `stream` alone.
#[verifier::external_body]
pub(crate) fn gzip_decode(stream: &[u8]) -> (r: Result<Vec<u8>, std::io::Error>)
    ensures
        r matches Ok(out) ==> gzip_payload(stream@) == Some(out@),
        r is Err ==> gzip_payload(stream@) is None,
{
    let mut out = Vec::new();
    std::io::Read::read_to_end(&mut flate2::read::GzDecoder::new(stream), &mut out)?;
    Ok(out)
}

/// Writes `data` through `brotli::CompressorWriter`, flushes it, and closes
/// the stream with `into_inner`. Relied upon: whether it succeeds, and with
/// what, depends on the arguments alone; for a window between `2^18` and
/// `2^24` the low four bits of the first byte encode that window as
/// `2 * (lgwin - 17) + 1`; and `brotli::Decompressor` reads `data` back out
/// of the stream. The first of these holds only of a build with the crate's
/// `portable-float` feature, which this library asks for: without it the
/// encoder's cost estimates go through the platform's `log2`, and the bytes
/// may differ from one machine to the next. `into_inner` does not report how
/// the closing step went: that `Ok` means a complete stream rests on the sink
/// being a vector, which takes every write.
#[verifier::external_body]
pub(crate) fn brotli_encode(data: &[u8], buffer: usize, quality: u32, lgwin: u32) -> (r: Result<
    Vec<u8>,
    std::io::Error,
>)
    requires
        buffer > 0,
        quality <= 11,
        18 <= lgwin <= 24,
    ensures
        r matches Ok(out) ==> brotli_stream(data@, buffer, quality, lgwin) == Some(out@),
        r is Err ==> brotli_stream(data@, buffer, quality, lgwin) is None,
        r matches Ok(out) ==> brotli_payload(out@, buffer) == Some(data@),
        r matches Ok(out) ==> out@.len() >= 1 && out@[0] % 16 == 2 * (lgwin - 17) + 1,
{
    let mut sink = brotli::CompressorWriter::new(Vec::new(), buffer, quality, lgwin);
    std::io::Write::write_all(&mut sink, data)?;
    std::io::Write::flush(&mut sink)?;
    Ok(sink.into_inner())
}

/// Reads `stream` to its end through `brotli::Decompressor`. Relied upon:
/// whether it succeeds, and with what, depends on the arguments alone.
#[verifier::external_body]
pub(crate) fn brotli_decode(stream: &[u8], buffer: usize) -> (r: Result<Vec<u8>, std::io::Error>)
    requires
        buffer > 0,
    ensures
        r matches Ok(out) ==> brotli_payload(stream@, buffer) == Some(out@),
        r is Err ==> brotli_payload(stream@, buffer) is None,
{
    let mut out = Vec::new();
    std::io::Read::read_to_end(&mut brotli::Decompressor::new(stream, buffer), &mut out)?;
    Ok(out)
}

/// Runs `bzip2::write::BzEncoder` over `data` into a fresh vector and
/// finishes it. Relied upon: whether it succeeds, and with what, depends on
/// `data` and `level` alone; the stream opens with `BZh`; and
/// `bzip2::read::BzDecoder` reads `data` back out of it.
/// `bzip2::Compression::new` panics outside 1 to 9.
#[verifier::external_body]
pub(crate) fn bzip2_encode(data: &[u8], level: u32) -> (r: Result<Vec<u8>, std::io::Error>)
    requires
        1 <= level <= 9,
    ensures
        r matches Ok(out) ==> bzip2_stream(data@, level) == Some(out@),
        r is Err ==> bzip2_stream(data@, level) is None,
        r matches Ok(out) ==> bzip2_payload(out@) == Some(data@),
        r matches Ok(out) ==> opens_as_bzip2(out@),
{
    let mut sink = bzip2::write::BzEncoder::new(Vec::new(), bzip2::Compression::new(level));
    std::io::Write::write_all(&mut sink, data)?;
    sink.finish()
}

/// Reads `stream` to its end through `bzip2::read::BzDecoder`. Relied upon:
/// whether it succeeds, and with what, depends on `stream` alone.
#[verifier::external_body]
pub(crate) fn bzip2_decode(stream: &[u8]) -> (r: Result<Vec<u8>, std::io::Error>)
    ensures
        r matches Ok(out) ==> bzip2_payload(stream@) == Some(out@),
        r is Err ==> bzip2_payload(stream@) is None,
{
    let mut out = Vec::new();
    std::io::Read::read_to_end(&mut bzip2::read::BzDecoder::new(stream), &mut out)?;
    Ok(out)
}

/// Runs `xz2::write::XzEncoder` over `data` into a fresh vector and finishes
/// it. Relied upon: whether it succeeds, and with what, depends on `data`
/// and `level` alone, while memory lasts (the build links the liblzma that
/// comes with lzma-sys, not the host's); the stream opens with
/// `fd 37 7a 58 5a 00`; and
/// `xz2::read::XzDecoder` reads `data` back out of it. `XzEncoder::new`
/// panics on a preset that liblzma refuses, so presets above 9 are left out.
#[verifier::external_body]
pub(crate) fn xz_encode(data: &[u8], level: u32) -> (r: Result<Vec<u8>, std::io::Error>)
    requires
        level <= 9,
    ensures
        r matches Ok(out) ==> xz_stream(data@, level) == Some(out@),
        r is Err ==> xz_stream(data@, level) is None,
        r matches Ok(out) ==> xz_payload(out@) == Some(data@),
        r matches Ok(out) ==> opens_as_xz(out@),
{
    let mut sink = xz2::write::XzEncoder::new(Vec::new(), level);
    std::io::Write::write_all(&mut sink, data)?;
    sink.finish()
}

/// Reads `stream` to its end through `xz2::read::XzDecoder`. Relied upon:
/// whether it succeeds, and with what, depends on `stream` alone.
#[verifier::external_body]
pub(crate) fn xz_decode(stream: &[u8]) -> (r: Result<Vec<u8>, std::io::Error>)
    ensures
        r matches Ok(out) ==> xz_payload(stream@) == Some(out@),
        r is Err ==> xz_payload(stream@) is None,
{
    let mut out = Vec::new();
    std::io::Read::read_to_end(&mut xz2::read::XzDecoder::new(stream), &mut out)?;
    Ok(out)
}

} // verus!
