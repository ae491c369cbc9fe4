//! Reading a request out of the lines a user typed: the mode, the algorithm
//! name and the level. Text that cannot be read resolves to a default and is
//! reported, never refused.

use vstd::prelude::*;
use crate::algorithm::Algorithm;
use crate::failure::Notice;
use crate::text::{chars_of, fold_all, same_chars, spec_fold_all, spec_trim, trim};

verus! {

/// The level that stands in for text that is not a number.
pub const FALLBACK_LEVEL: u32 = 9;

/// Which of the two operations is asked for.
#[derive(Clone, Copy, Debug, PartialEq, Eq, Structural)]
pub enum Mode {
    Compress,
    Decompress,
}

/// An algorithm, and the notice that it is a default where the name was not
/// recognised.
#[derive(Clone, Copy, Debug, PartialEq, Eq, Structural)]
pub struct Selection {
    pub algorithm: Algorithm,
    pub notice: Option<Notice>,
}

/// A level, and the notice that it is a default where the text was not a
/// number.
#[derive(Clone, Copy, Debug, PartialEq, Eq, Structural)]
pub struct LevelChoice {
    pub level: u32,
    pub notice: Option<Notice>,
}

/// The algorithm that stands in for a name that is not recognised.
pub open spec fn spec_fallback_algorithm() -> Algorithm {
    Algorithm::Brotli
}

/// The name by which `algorithm` is selected, in small letters.
pub open spec fn spec_name(algorithm: Algorithm) -> Seq<char> {
    match algorithm {
        Algorithm::Zlib => seq!['z', 'l', 'i', 'b'],
        Algorithm::Gzip => seq!['g', 'z', 'i', 'p'],
        Algorithm::Brotli => seq!['b', 'r', 'o', 't', 'l', 'i'],
        Algorithm::Bzip2 => seq!['b', 'z', 'i', 'p', '2'],
        Algorithm::Xz => seq!['x', 'z'],
    }
}

/// The text with surrounding white space removed and capitals folded: the
/// form in which a mode or a name is compared.
pub open spec fn spec_normal(text: Seq<char>) -> Seq<char> {
    spec_fold_all(spec_trim(text))
}

/// The mode that `text` asks for: the letter `c` or `d`, in either case.
pub open spec fn spec_parse_mode(text: Seq<char>) -> Option<Mode> {
    let word = spec_normal(text);
    if word == seq!['c'] {
        Some(Mode::Compress)
    } else if word == seq!['d'] {
        Some(Mode::Decompress)
    } else {
        None
    }
}

/// The algorithm that `text` names, whatever the case of its letters.
pub open spec fn spec_named(text: Seq<char>) -> Option<Algorithm> {
    let word = spec_normal(text);
    if word == spec_name(Algorithm::Zlib) {
        Some(Algorithm::Zlib)
    } else if word == spec_name(Algorithm::Gzip) {
        Some(Algorithm::Gzip)
    } else if word == spec_name(Algorithm::Brotli) {
        Some(Algorithm::Brotli)
    } else if word == spec_name(Algorithm::Bzip2) {
        Some(Algorithm::Bzip2)
    } else if word == spec_name(Algorithm::Xz) {
        Some(Algorithm::Xz)
    } else {
        None
    }
}

/// The selection that `text` resolves to.
pub open spec fn spec_parse_algorithm(text: Seq<char>) -> Selection {
    match spec_named(text) {
        Some(algorithm) => (Selection { algorithm, notice: None }),
        None => (Selection {
            algorithm: spec_fallback_algorithm(),
            notice: Some(Notice::InvalidSelectorFallback),
        }),
    }
}

/// Whether `c` is one of the ten decimal digits.
pub open spec fn spec_is_digit(c: char) -> bool {
    '0' <= c <= '9'
}

/// The value of the digit `c`, and zero for any other character.
pub open spec fn spec_digit_value(c: char) -> nat {
    if spec_is_digit(c) {
        (c as u32 - '0' as u32) as nat
    } else {
        0
    }
}

/// Whether `s` consists of decimal digits only.
pub open spec fn spec_all_digits(s: Seq<char>) -> bool {
    forall|i: int| 0 <= i < s.len() ==> spec_is_digit(#[trigger] s[i])
}

/// The number that the digits of `s` write in base ten.
pub open spec fn spec_decimal(s: Seq<char>) -> nat
    decreases s.len(),
{
    if s.len() == 0 {
        0
    } else {
        spec_decimal(s.drop_last()) * 10 + spec_digit_value(s.last())
    }
}

/// The number that `s` writes: an optional plus sign, then one digit or
/// more, with a value that fits in 32 bits.
pub open spec fn spec_unsigned(s: Seq<char>) -> Option<u32> {
    let body = if s.len() > 0 && s[0] == '+' {
        s.drop_first()
    } else {
        s
    };
    if body.len() > 0 && spec_all_digits(body) && spec_decimal(body) <= u32::MAX {
        Some(spec_decimal(body) as u32)
    } else {
        None
    }
}

/// The level that `text` resolves to.
pub open spec fn spec_parse_level(text: Seq<char>) -> LevelChoice {
    match spec_unsigned(spec_trim(text)) {
        Some(level) => (LevelChoice { level, notice: None }),
        None => (LevelChoice { level: FALLBACK_LEVEL, notice: Some(Notice::InvalidLevelFallback) }),
    }
}

/// A longer run of characters writes a number at least as large as any of
/// its prefixes does.
pub proof fn lemma_decimal_grows(s: Seq<char>, k: int)
    requires
        0 <= k <= s.len(),
    ensures
        spec_decimal(s.subrange(0, k)) <= spec_decimal(s),
    decreases s.len(),
{
    if k == s.len() {
        assert(s.subrange(0, k) =~= s);
    } else {
        lemma_decimal_grows(s.drop_last(), k);
        assert(s.drop_last().subrange(0, k) =~= s.subrange(0, k));
    }
}

/// The name by which `algorithm` is selected.
pub fn name(algorithm: Algorithm) -> (r: &'static str)
    ensures
        r@ == spec_name(algorithm),
{
    proof {
        reveal_strlit("zlib");
        reveal_strlit("gzip");
        reveal_strlit("brotli");
        reveal_strlit("bzip2");
        reveal_strlit("xz");
    }
    let r = match algorithm {
        Algorithm::Zlib => "zlib",
        Algorithm::Gzip => "gzip",
        Algorithm::Brotli => "brotli",
        Algorithm::Bzip2 => "bzip2",
        Algorithm::Xz => "xz",
    };
    assert(r@ =~= spec_name(algorithm));
    r
}

/// Removes surrounding white space from `text` and folds its capitals.
pub fn normal(text: &str) -> (r: Vec<char>)
    ensures
        r@ == spec_normal(text@),
{
    let chars = chars_of(text);
    let trimmed = trim(chars.as_slice());
    fold_all(trimmed.as_slice())
}

/// Reads the mode: `c` for compression, `d` for decompression, in either
/// case and with any white space around it. Anything else asks for neither.
pub fn parse_mode(text: &str) -> (r: Option<Mode>)
    ensures
        r == spec_parse_mode(text@),
{
    let word = normal(text);
    if word.len() == 1 && word[0] == 'c' {
        assert(word@ =~= seq!['c']);
        Some(Mode::Compress)
    } else if word.len() == 1 && word[0] == 'd' {
        assert(word@ =~= seq!['d']);
        Some(Mode::Decompress)
    } else {
        assert(seq!['c'].len() == 1 && seq!['c'][0] == 'c');
        assert(seq!['d'].len() == 1 && seq!['d'][0] == 'd');
        None
    }
}

/// Decides whether `word` is the name of `algorithm`.
fn is_name(word: &[char], algorithm: Algorithm) -> (r: bool)
    ensures
        r == (word@ == spec_name(algorithm)),
{
    let wanted = chars_of(name(algorithm));
    same_chars(word, wanted.as_slice())
}

/// Reads the algorithm name, in any case and with any white space around
/// it. A name that is not recognised resolves to Brotli, with a notice.
pub fn parse_algorithm(text: &str) -> (r: Selection)
    ensures
        r == spec_parse_algorithm(text@),
        r.notice is None <==> spec_named(text@) is Some,
{
    let word = normal(text);
    if is_name(word.as_slice(), Algorithm::Zlib) {
        Selection { algorithm: Algorithm::Zlib, notice: None }
    } else if is_name(word.as_slice(), Algorithm::Gzip) {
        Selection { algorithm: Algorithm::Gzip, notice: None }
    } else if is_name(word.as_slice(), Algorithm::Brotli) {
        Selection { algorithm: Algorithm::Brotli, notice: None }
    } else if is_name(word.as_slice(), Algorithm::Bzip2) {
        Selection { algorithm: Algorithm::Bzip2, notice: None }
    } else if is_name(word.as_slice(), Algorithm::Xz) {
        Selection { algorithm: Algorithm::Xz, notice: None }
    } else {
        Selection { algorithm: Algorithm::Brotli, notice: Some(Notice::InvalidSelectorFallback) }
    }
}

/// Reads an unsigned number: an optional plus sign, then decimal digits.
pub fn parse_unsigned(s: &[char]) -> (r: Option<u32>)
    ensures
        r == spec_unsigned(s@),
{
    let n: usize = s.len();
    let first: usize = if n > 0 && s[0] == '+' {
        1
    } else {
        0
    };
    let ghost body = s@.subrange(first as int, n as int);
    assert(body =~= (if s@.len() > 0 && s@[0] == '+' {
        s@.drop_first()
    } else {
        s@
    }));
    if first == n {
        return None;
    }
    let mut value: u64 = 0;
    let mut i: usize = first;
    assert(body.subrange(0, 0) =~= Seq::<char>::empty());
    while i < n
        invariant
            first <= i <= n,
            n == s@.len(),
            body == s@.subrange(first as int, n as int),
            body == (if s@.len() > 0 && s@[0] == '+' {
                s@.drop_first()
            } else {
                s@
            }),
            spec_all_digits(body.subrange(0, i - first)),
            value == spec_decimal(body.subrange(0, i - first)),
            value <= u32::MAX,
        decreases n - i,
    {
        let c: char = s[i];
        let ghost upto = body.subrange(0, i - first + 1);
        assert(upto.drop_last() =~= body.subrange(0, i - first));
        assert(upto.last() == c);
        if !('0' <= c && c <= '9') {
            assert(body[i - first] == c);
            return None;
        }
        let digit: u64 = (c as u32 - '0' as u32) as u64;
        let next: u64 = value * 10 + digit;
        if next > 0xffff_ffff {
            proof {
                lemma_decimal_grows(body, i - first + 1);
                assert(spec_decimal(upto) == next);
            }
            return None;
        }
        value = next;
        i += 1;
    }
    assert(body.subrange(0, n - first) =~= body);
    Some(value as u32)
}

/// Reads the level. Text that is not an unsigned number resolves to
/// `FALLBACK_LEVEL`, with a notice; the operation goes on either way.
pub fn parse_level(text: &str) -> (r: LevelChoice)
    ensures
        r == spec_parse_level(text@),
        r.notice is Some ==> r.level == FALLBACK_LEVEL,
        r.notice is None <==> spec_unsigned(spec_trim(text@)) is Some,
{
    let chars = chars_of(text);
    let trimmed = trim(chars.as_slice());
    match parse_unsigned(trimmed.as_slice()) {
        Some(level) => LevelChoice { level, notice: None },
        None => LevelChoice { level: FALLBACK_LEVEL, notice: Some(Notice::InvalidLevelFallback) },
    }
}

} // verus!
