//! Container signatures: the leading bytes by which four of the five
//! containers announce themselves.

use vstd::prelude::*;
use crate::algorithm::Algorithm;

verus! {

/// A zlib stream opens with a method nibble of 8 and a two-byte header that
/// is a multiple of 31 when read big-endian.
pub open spec fn opens_as_zlib(bytes: Seq<u8>) -> bool {
    &&& bytes.len() >= 2
    &&& bytes[0] % 16 == 8
    &&& (bytes[0] * 256 + bytes[1]) % 31 == 0
}

/// A gzip member opens with the bytes `1f 8b`.
pub open spec fn opens_as_gzip(bytes: Seq<u8>) -> bool {
    &&& bytes.len() >= 2
    &&& bytes[0] == 0x1f
    &&& bytes[1] == 0x8b
}

/// A bzip2 stream opens with the letters `BZh`.
pub open spec fn opens_as_bzip2(bytes: Seq<u8>) -> bool {
    &&& bytes.len() >= 3
    &&& bytes[0] == 0x42
    &&& bytes[1] == 0x5a
    &&& bytes[2] == 0x68
}

/// An xz stream opens with the bytes `fd 37 7a 58 5a 00`.
pub open spec fn opens_as_xz(bytes: Seq<u8>) -> bool {
    &&& bytes.len() >= 6
    &&& bytes[0] == 0xfd
    &&& bytes[1] == 0x37
    &&& bytes[2] == 0x7a
    &&& bytes[3] == 0x58
    &&& bytes[4] == 0x5a
    &&& bytes[5] == 0x00
}

/// The container that `bytes` announce, if any. A Brotli stream has no
/// signature, so it is never announced.
pub open spec fn spec_sniff(bytes: Seq<u8>) -> Option<Algorithm> {
    if opens_as_gzip(bytes) {
        Some(Algorithm::Gzip)
    } else if opens_as_bzip2(bytes) {
        Some(Algorithm::Bzip2)
    } else if opens_as_xz(bytes) {
        Some(Algorithm::Xz)
    } else if opens_as_zlib(bytes) {
        Some(Algorithm::Zlib)
    } else {
        None
    }
}

/// What `spec_sniff` reports for a container of `algorithm`.
pub open spec fn spec_announced(algorithm: Algorithm) -> Option<Algorithm> {
    match algorithm {
        Algorithm::Brotli => None,
        _ => Some(algorithm),
    }
}

/// Whether `bytes` may be handed to the decoder of `algorithm`: they announce
/// that container, or, for Brotli, announce none.
pub open spec fn spec_framed_as(algorithm: Algorithm, bytes: Seq<u8>) -> bool {
    spec_sniff(bytes) == spec_announced(algorithm)
}

/// The four signatures exclude one another: the first byte already tells them
/// apart.
pub proof fn lemma_signatures_disjoint(bytes: Seq<u8>)
    ensures
        opens_as_zlib(bytes) ==> !opens_as_gzip(bytes) && !opens_as_bzip2(bytes) && !opens_as_xz(bytes),
        opens_as_gzip(bytes) ==> !opens_as_bzip2(bytes) && !opens_as_xz(bytes),
        opens_as_bzip2(bytes) ==> !opens_as_xz(bytes),
        opens_as_zlib(bytes) ==> spec_sniff(bytes) == Some(Algorithm::Zlib),
        opens_as_gzip(bytes) ==> spec_sniff(bytes) == Some(Algorithm::Gzip),
        opens_as_bzip2(bytes) ==> spec_sniff(bytes) == Some(Algorithm::Bzip2),
        opens_as_xz(bytes) ==> spec_sniff(bytes) == Some(Algorithm::Xz),
{
}

/// Reports which of the four signed containers `bytes` open as.
pub fn sniff(bytes: &[u8]) -> (r: Option<Algorithm>)
    ensures
        r == spec_sniff(bytes@),
{
    let n: usize = bytes.len();
    if n >= 2 && bytes[0] == 0x1f && bytes[1] == 0x8b {
        Some(Algorithm::Gzip)
    } else if n >= 3 && bytes[0] == 0x42 && bytes[1] == 0x5a && bytes[2] == 0x68 {
        Some(Algorithm::Bzip2)
    } else if n >= 6 && bytes[0] == 0xfd && bytes[1] == 0x37 && bytes[2] == 0x7a && bytes[3]
        == 0x58 && bytes[4] == 0x5a && bytes[5] == 0x00 {
        Some(Algorithm::Xz)
    } else if n >= 2 && bytes[0] % 16 == 8 {
        let header: u32 = (bytes[0] as u32) * 256 + (bytes[1] as u32);
        if header % 31 == 0 {
            Some(Algorithm::Zlib)
        } else {
            None
        }
    } else {
        None
    }
}

/// Decides whether `bytes` may be handed to the decoder of `algorithm`.
pub fn framed_as(algorithm: Algorithm, bytes: &[u8]) -> (r: bool)
    ensures
        r == spec_framed_as(algorithm, bytes@),
{
    let found = sniff(bytes);
    match algorithm {
        Algorithm::Brotli => found.is_none(),
        _ => match found {
            Some(a) => a == algorithm,
            None => false,
        },
    }
}

} // verus!
