use multicodec::algorithm::Algorithm;
use std::io::Read;
use multicodec::frame::{framed_as, sniff};
use multicodec::registry::{decode, encode, BROTLI_BUFFER, BROTLI_WINDOW};

const ALL: [Algorithm; 5] = [
    Algorithm::Zlib,
    Algorithm::Gzip,
    Algorithm::Brotli,
    Algorithm::Bzip2,
    Algorithm::Xz,
];

#[test]
fn level_ranges_and_defaults() {
    assert_eq!((Algorithm::Zlib.min_level(), Algorithm::Zlib.max_level()), (1, 9));
    assert_eq!((Algorithm::Gzip.min_level(), Algorithm::Gzip.max_level()), (1, 9));
    assert_eq!((Algorithm::Brotli.min_level(), Algorithm::Brotli.max_level()), (0, 11));
    assert_eq!((Algorithm::Bzip2.min_level(), Algorithm::Bzip2.max_level()), (1, 9));
    assert_eq!((Algorithm::Xz.min_level(), Algorithm::Xz.max_level()), (0, 9));
    assert_eq!(Algorithm::Zlib.default_level(), 6);
    assert_eq!(Algorithm::Gzip.default_level(), 6);
    assert_eq!(Algorithm::Brotli.default_level(), 5);
    assert_eq!(Algorithm::Bzip2.default_level(), 6);
    assert_eq!(Algorithm::Xz.default_level(), 6);
    assert_eq!(BROTLI_WINDOW, 22);
    assert_eq!(BROTLI_BUFFER, 4096);
}

#[test]
fn clamp_keeps_levels_in_range_and_pulls_in_the_rest() {
    for a in ALL {
        for level in 0..=20u32 {
            let got = a.clamp_level(level);
            assert!(a.min_level() <= got && got <= a.max_level());
            if a.min_level() <= level && level <= a.max_level() {
                assert_eq!(got, level);
            }
        }
        assert_eq!(a.clamp_level(u32::MAX), a.max_level());
        assert_eq!(a.clamp_level(0), a.min_level());
        assert_eq!(a.clamp_level(a.default_level()), a.default_level());
    }
    assert_eq!(Algorithm::Zlib.clamp_level(0), 1);
    assert_eq!(Algorithm::Gzip.clamp_level(0), 1);
    assert_eq!(Algorithm::Bzip2.clamp_level(0), 1);
    assert_eq!(Algorithm::Brotli.clamp_level(0), 0);
    assert_eq!(Algorithm::Xz.clamp_level(0), 0);
    assert_eq!(Algorithm::Zlib.clamp_level(10), 9);
    assert_eq!(Algorithm::Xz.clamp_level(10), 9);
    assert_eq!(Algorithm::Brotli.clamp_level(10), 10);
    assert_eq!(Algorithm::Brotli.clamp_level(12), 11);
    assert_eq!(Algorithm::Gzip.clamp_level(10), 9);
}

#[test]
fn default_levels_match_the_codec_crates() {
    assert_eq!(Algorithm::Zlib.default_level(), flate2::Compression::default().level());
    assert_eq!(Algorithm::Bzip2.default_level(), bzip2::Compression::default().level());
}

#[test]
fn encode_then_decode_restores_the_input() {
    let data = b"the quick brown fox jumps over the lazy dog, twice: the quick brown fox".to_vec();
    for a in ALL {
        for level in a.min_level()..=a.max_level() {
            let packed = encode(a, &data, level).unwrap();
            assert_ne!(packed, data);
            assert_eq!(decode(a, &packed).unwrap(), data);
        }
    }
}

#[test]
fn decode_refuses_what_is_not_a_container() {
    for a in ALL {
        assert!(decode(a, b"plainly not compressed data at all").is_err());
        assert!(decode(a, &[]).is_err());
    }
}

#[test]
fn containers_are_readable_by_the_codec_crates_directly() {
    let data = b"interoperable bytes".to_vec();

    let packed = encode(Algorithm::Zlib, &data, 6).unwrap();
    let mut out = Vec::new();
    flate2::read::ZlibDecoder::new(&packed[..]).read_to_end(&mut out).unwrap();
    assert_eq!(out, data);

    let packed = encode(Algorithm::Gzip, &data, 6).unwrap();
    let mut out = Vec::new();
    flate2::read::MultiGzDecoder::new(&packed[..]).read_to_end(&mut out).unwrap();
    assert_eq!(out, data);

    let packed = encode(Algorithm::Bzip2, &data, 6).unwrap();
    let mut out = Vec::new();
    bzip2::read::MultiBzDecoder::new(&packed[..]).read_to_end(&mut out).unwrap();
    assert_eq!(out, data);

    let packed = encode(Algorithm::Xz, &data, 6).unwrap();
    let mut out = Vec::new();
    xz2::read::XzDecoder::new(&packed[..]).read_to_end(&mut out).unwrap();
    assert_eq!(out, data);

    let packed = encode(Algorithm::Brotli, &data, 5).unwrap();
    let mut out = Vec::new();
    brotli::Decompressor::new(&packed[..], 4096).read_to_end(&mut out).unwrap();
    assert_eq!(out, data);
}

#[test]
fn sniff_tells_the_four_signatures_apart() {
    assert_eq!(sniff(&[0x1f, 0x8b, 0x08, 0x00]), Some(Algorithm::Gzip));
    assert_eq!(sniff(&[0x1f, 0x8b]), Some(Algorithm::Gzip));
    assert_eq!(sniff(&[0x1f]), None);
    assert_eq!(sniff(&[0x1f, 0x8c]), None);
    assert_eq!(sniff(b"BZh9"), Some(Algorithm::Bzip2));
    assert_eq!(sniff(b"BZh"), Some(Algorithm::Bzip2));
    assert_eq!(sniff(b"BZ"), None);
    assert_eq!(sniff(b"BZx9"), None);
    assert_eq!(sniff(&[0xfd, 0x37, 0x7a, 0x58, 0x5a, 0x00]), Some(Algorithm::Xz));
    assert_eq!(sniff(&[0xfd, 0x37, 0x7a, 0x58, 0x5a, 0x01]), None);
    assert_eq!(sniff(&[0xfd, 0x37, 0x7a, 0x58, 0x5a]), None);
    assert_eq!(sniff(&[0x78, 0x9c]), Some(Algorithm::Zlib));
    assert_eq!(sniff(&[0x78, 0x01]), Some(Algorithm::Zlib));
    assert_eq!(sniff(&[0x78, 0xda, 0x03]), Some(Algorithm::Zlib));
    assert_eq!(sniff(&[0x78, 0x9d]), None);
    assert_eq!(sniff(&[0x78]), None);
    assert_eq!(sniff(&[0x79, 0x9c]), None);
    assert_eq!(sniff(&[]), None);
    assert_eq!(sniff(&[0x3b]), None);
    assert_eq!(sniff(&[0x8b, 0x02, 0x80]), None);
}

#[test]
fn framed_as_accepts_only_the_selected_container() {
    let gz = [0x1f, 0x8b, 0x08, 0x00];
    assert!(framed_as(Algorithm::Gzip, &gz));
    for a in [Algorithm::Zlib, Algorithm::Brotli, Algorithm::Bzip2, Algorithm::Xz] {
        assert!(!framed_as(a, &gz));
    }
    let unsigned = [0x3b];
    assert!(framed_as(Algorithm::Brotli, &unsigned));
    for a in [Algorithm::Zlib, Algorithm::Gzip, Algorithm::Bzip2, Algorithm::Xz] {
        assert!(!framed_as(a, &unsigned));
    }
    assert!(framed_as(Algorithm::Brotli, &[]));
    assert!(!framed_as(Algorithm::Zlib, &[]));
    assert!(framed_as(Algorithm::Zlib, &[0x78, 0x9c]));
    assert!(!framed_as(Algorithm::Brotli, &[0x78, 0x9c]));
}
