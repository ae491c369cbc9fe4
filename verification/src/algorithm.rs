//! The closed set of supported codecs and their tuning ranges.

use vstd::prelude::*;

verus! {

/// Selects the codec that governs one operation, on write and on read alike.
#[derive(Clone, Copy, Debug, PartialEq, Eq, Structural)]
pub enum Algorithm {
    Zlib,
    Gzip,
    Brotli,
    Bzip2,
    Xz,
}

impl Algorithm {
    /// The smallest level of the algorithm's scale: 1 for zlib, gzip and
    /// bzip2, whose scales run from 1 to 9, and 0 for the Brotli quality and
    /// the xz preset.
    pub open spec fn spec_min_level(self) -> u32 {
        match self {
            Algorithm::Brotli => 0,
            Algorithm::Xz => 0,
            _ => 1,
        }
    }

    /// The largest level of the algorithm's scale.
    pub open spec fn spec_max_level(self) -> u32 {
        match self {
            Algorithm::Brotli => 11,
            _ => 9,
        }
    }

    /// The level used when the caller has no preference.
    pub open spec fn spec_default_level(self) -> u32 {
        match self {
            Algorithm::Brotli => 5,
            _ => 6,
        }
    }

    /// Whether `level` lies in the codec's range.
    pub open spec fn accepts(self, level: u32) -> bool {
        self.spec_min_level() <= level <= self.spec_max_level()
    }

    /// The level nearest to `level` that the codec accepts.
    pub open spec fn spec_clamp_level(self, level: u32) -> u32 {
        if level < self.spec_min_level() {
            self.spec_min_level()
        } else if level > self.spec_max_level() {
            self.spec_max_level()
        } else {
            level
        }
    }

    #[verifier::when_used_as_spec(spec_min_level)]
    pub fn min_level(self) -> (r: u32)
        ensures
            r == self.spec_min_level(),
    {
        match self {
            Algorithm::Brotli => 0,
            Algorithm::Xz => 0,
            _ => 1,
        }
    }

    #[verifier::when_used_as_spec(spec_max_level)]
    pub fn max_level(self) -> (r: u32)
        ensures
            r == self.spec_max_level(),
    {
        match self {
            Algorithm::Brotli => 11,
            _ => 9,
        }
    }

    #[verifier::when_used_as_spec(spec_default_level)]
    pub fn default_level(self) -> (r: u32)
        ensures
            r == self.spec_default_level(),
            self.accepts(r),
    {
        match self {
            Algorithm::Brotli => 5,
            _ => 6,
        }
    }

    /// Brings `level` into the codec's range: a level below the range becomes
    /// the minimum, one above it the maximum, and one inside it is kept.
    #[verifier::when_used_as_spec(spec_clamp_level)]
    pub fn clamp_level(self, level: u32) -> (r: u32)
        ensures
            r == self.spec_clamp_level(level),
            self.accepts(r),
            self.accepts(level) ==> r == level,
    {
        let lo: u32 = self.min_level();
        let hi: u32 = self.max_level();
        if level < lo {
            lo
        } else if level > hi {
            hi
        } else {
            level
        }
    }
}

} // verus!
