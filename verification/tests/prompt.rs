use multicodec::algorithm::Algorithm;
use multicodec::failure::{Failure, Notice};
use multicodec::prompt::{
    name, normal, parse_algorithm, parse_level, parse_mode, parse_unsigned, LevelChoice, Mode,
    Selection, FALLBACK_LEVEL,
};
use multicodec::text::{chars_of, fold, fold_all, is_whitespace, same_chars, trim};

const ALL: [Algorithm; 5] = [
    Algorithm::Zlib,
    Algorithm::Gzip,
    Algorithm::Brotli,
    Algorithm::Bzip2,
    Algorithm::Xz,
];

fn chars(s: &str) -> Vec<char> {
    s.chars().collect()
}

#[test]
fn whitespace_agrees_with_the_standard_library_on_every_character() {
    for n in 0..=0x10ffffu32 {
        if let Some(c) = char::from_u32(n) {
            assert_eq!(is_whitespace(c), c.is_whitespace(), "U+{:04X}", n);
        }
    }
}

#[test]
fn fold_agrees_with_ascii_lowercase_on_every_character() {
    for n in 0..=0x10ffffu32 {
        if let Some(c) = char::from_u32(n) {
            assert_eq!(fold(c), c.to_ascii_lowercase());
        }
    }
}

#[test]
fn chars_of_keeps_every_character_in_order() {
    assert_eq!(chars_of(""), Vec::<char>::new());
    assert_eq!(chars_of("gzip"), vec!['g', 'z', 'i', 'p']);
    assert_eq!(chars_of("a\u{e9}\u{4e2d}\u{1f600}z"), vec!['a', '\u{e9}', '\u{4e2d}', '\u{1f600}', 'z']);
}

#[test]
fn trim_removes_white_space_at_both_ends_only() {
    for text in [
        "",
        " ",
        "\n",
        "  \t\r\n ",
        "x",
        " x",
        "x ",
        "  x y  ",
        "\u{a0}gzip\u{2003}\n",
        "\u{3000}\u{3000}",
        "a\u{85}",
        "\u{200b}x\u{200b}",
        " 12 34 ",
    ] {
        assert_eq!(trim(&chars(text)), chars(text.trim()), "{:?}", text);
    }
}

#[test]
fn fold_all_lowers_ascii_capitals_only() {
    assert_eq!(fold_all(&chars("GZip2 \u{c9}\u{212a}")), chars("gzip2 \u{c9}\u{212a}"));
    assert_eq!(fold_all(&[]), Vec::<char>::new());
}

#[test]
fn same_chars_compares_whole_sequences() {
    assert!(same_chars(&chars("xz"), &chars("xz")));
    assert!(same_chars(&[], &[]));
    assert!(!same_chars(&chars("xz"), &chars("xy")));
    assert!(!same_chars(&chars("xz"), &chars("xzz")));
    assert!(!same_chars(&chars("ax"), &chars("bx")));
}

#[test]
fn normal_trims_then_folds() {
    assert_eq!(normal("  BroTLI\r\n"), chars("brotli"));
    assert_eq!(normal("\t\n"), Vec::<char>::new());
}

#[test]
fn mode_is_read_from_one_letter() {
    assert_eq!(parse_mode("C"), Some(Mode::Compress));
    assert_eq!(parse_mode("c"), Some(Mode::Compress));
    assert_eq!(parse_mode(" c\n"), Some(Mode::Compress));
    assert_eq!(parse_mode("D"), Some(Mode::Decompress));
    assert_eq!(parse_mode("d\r\n"), Some(Mode::Decompress));
    assert_eq!(parse_mode(""), None);
    assert_eq!(parse_mode("\n"), None);
    assert_eq!(parse_mode("x"), None);
    assert_eq!(parse_mode("cd"), None);
    assert_eq!(parse_mode("compress"), None);
    assert_eq!(parse_mode("c d"), None);
}

#[test]
fn mode_agrees_with_trim_and_uppercase() {
    for text in ["C", "c", "D", "d", " c ", "dd", "", "e", "\u{217d}", "\u{10d}", "C\n", "\u{1d04}"] {
        let upper = text.trim().to_uppercase();
        let expected = if upper == "C" {
            Some(Mode::Compress)
        } else if upper == "D" {
            Some(Mode::Decompress)
        } else {
            None
        };
        assert_eq!(parse_mode(text), expected, "{:?}", text);
    }
}

#[test]
fn names_are_the_lower_case_words() {
    assert_eq!(name(Algorithm::Zlib), "zlib");
    assert_eq!(name(Algorithm::Gzip), "gzip");
    assert_eq!(name(Algorithm::Brotli), "brotli");
    assert_eq!(name(Algorithm::Bzip2), "bzip2");
    assert_eq!(name(Algorithm::Xz), "xz");
}

#[test]
fn every_name_selects_its_algorithm_in_any_case() {
    for a in ALL {
        let lower = name(a).to_string();
        let upper = lower.to_uppercase();
        let padded = format!("  {}\n", upper);
        for text in [lower.as_str(), upper.as_str(), padded.as_str()] {
            assert_eq!(parse_algorithm(text), Selection { algorithm: a, notice: None });
        }
    }
    assert_eq!(
        parse_algorithm("GZip"),
        Selection { algorithm: Algorithm::Gzip, notice: None }
    );
    assert_eq!(
        parse_algorithm("Bzip2\r\n"),
        Selection { algorithm: Algorithm::Bzip2, notice: None }
    );
}

#[test]
fn unknown_name_falls_back_to_brotli_with_a_notice() {
    for text in ["", "zip", "lzma", "gzip2", "g zip", "zli", "zlibb", "x z", "7z", "zl\u{130}b", "bzip\u{b2}"] {
        assert_eq!(
            parse_algorithm(text),
            Selection {
                algorithm: Algorithm::Brotli,
                notice: Some(Notice::InvalidSelectorFallback)
            },
            "{:?}",
            text
        );
    }
}

#[test]
fn selection_agrees_with_trim_and_lowercase() {
    for text in [
        "zlib", "ZLIB", "Gzip", " brotli ", "BZIP2\n", "Xz", "xZ", "", "none", "zl\u{130}b",
        "\u{212a}z", "gzip\u{a0}", "\u{a0}xz", "brotl\u{131}", "deflate",
    ] {
        let lowered = text.trim().to_lowercase();
        let expected = match lowered.as_str() {
            "zlib" => (Algorithm::Zlib, None),
            "gzip" => (Algorithm::Gzip, None),
            "brotli" => (Algorithm::Brotli, None),
            "bzip2" => (Algorithm::Bzip2, None),
            "xz" => (Algorithm::Xz, None),
            _ => (Algorithm::Brotli, Some(Notice::InvalidSelectorFallback)),
        };
        let got = parse_algorithm(text);
        assert_eq!((got.algorithm, got.notice), expected, "{:?}", text);
    }
}

#[test]
fn unsigned_numbers_are_read_exactly() {
    assert_eq!(parse_unsigned(&chars("0")), Some(0));
    assert_eq!(parse_unsigned(&chars("7")), Some(7));
    assert_eq!(parse_unsigned(&chars("+7")), Some(7));
    assert_eq!(parse_unsigned(&chars("007")), Some(7));
    assert_eq!(parse_unsigned(&chars("4294967295")), Some(4294967295));
    assert_eq!(parse_unsigned(&chars("+0000000000004294967295")), Some(4294967295));
    assert_eq!(parse_unsigned(&chars("4294967296")), None);
    assert_eq!(parse_unsigned(&chars("99999999999999999999999999")), None);
    assert_eq!(parse_unsigned(&chars("")), None);
    assert_eq!(parse_unsigned(&chars("+")), None);
    assert_eq!(parse_unsigned(&chars("-1")), None);
    assert_eq!(parse_unsigned(&chars("++1")), None);
    assert_eq!(parse_unsigned(&chars("1+")), None);
    assert_eq!(parse_unsigned(&chars("1 2")), None);
    assert_eq!(parse_unsigned(&chars(" 1")), None);
    assert_eq!(parse_unsigned(&chars("1.5")), None);
    assert_eq!(parse_unsigned(&chars("0x10")), None);
    assert_eq!(parse_unsigned(&chars("\u{661}")), None);
    assert_eq!(parse_unsigned(&chars("99999999999x")), None);
}

#[test]
fn level_is_read_or_falls_back_to_nine() {
    assert_eq!(FALLBACK_LEVEL, 9);
    assert_eq!(parse_level("3"), LevelChoice { level: 3, notice: None });
    assert_eq!(parse_level(" 6\n"), LevelChoice { level: 6, notice: None });
    assert_eq!(parse_level("0"), LevelChoice { level: 0, notice: None });
    assert_eq!(parse_level("+11"), LevelChoice { level: 11, notice: None });
    assert_eq!(parse_level("4000000000"), LevelChoice { level: 4000000000, notice: None });
    for text in ["", "\n", "fast", "-1", "3.0", "9 9", "5000000000", "+", "1e3"] {
        assert_eq!(
            parse_level(text),
            LevelChoice { level: 9, notice: Some(Notice::InvalidLevelFallback) },
            "{:?}",
            text
        );
    }
}

#[test]
fn level_agrees_with_trim_and_parse() {
    for text in [
        "1", "9", " 5 ", "+2", "-2", "", "abc", "4294967295", "4294967296", "00012", "1_000",
        "\u{a0}7\u{a0}", "7\u{200b}", "٣", "+", "+-1", "12\n",
    ] {
        let expected: u32 = text.trim().parse().unwrap_or(9);
        assert_eq!(parse_level(text).level, expected, "{:?}", text);
        assert_eq!(
            parse_level(text).notice.is_none(),
            text.trim().parse::<u32>().is_ok(),
            "{:?}",
            text
        );
    }
}

#[test]
fn every_failure_and_notice_has_its_own_line() {
    let failures = [
        Failure::InputNotFound,
        Failure::InputUnreadable,
        Failure::OutputUnwritable,
        Failure::CodecEncodeFailure,
        Failure::CodecDecodeFailure,
    ];
    for (i, a) in failures.iter().enumerate() {
        assert!(!a.message().is_empty());
        assert!(!a.message().contains('\n'));
        for b in failures.iter().skip(i + 1) {
            assert_ne!(a.message(), b.message());
        }
    }
    assert_eq!(Failure::InputNotFound.message(), "input file not found");
    assert_eq!(
        Failure::CodecDecodeFailure.message(),
        "the data is not a valid container for the selected algorithm"
    );
    assert_ne!(
        Notice::InvalidSelectorFallback.message(),
        Notice::InvalidLevelFallback.message()
    );
    assert_eq!(Notice::InvalidLevelFallback.message(), "unreadable level, using the default");
}
