//! The categories under which an operation can fail, and the notices that
//! accompany a request resolved through a default.

use vstd::prelude::*;

verus! {

/// A fatal outcome: the operation stopped and produced no result.
#[derive(Clone, Copy, Debug, PartialEq, Eq, Structural)]
pub enum Failure {
    /// The input path names no file.
    InputNotFound,
    /// The input file exists but could not be read.
    InputUnreadable,
    /// The output file could not be created or written.
    OutputUnwritable,
    /// The codec refused to produce a container.
    CodecEncodeFailure,
    /// The bytes are not a container of the selected codec.
    CodecDecodeFailure,
}

/// A non-fatal remark: the request went on with a documented default.
#[derive(Clone, Copy, Debug, PartialEq, Eq, Structural)]
pub enum Notice {
    /// The algorithm name was not recognised.
    InvalidSelectorFallback,
    /// The level text was not a number.
    InvalidLevelFallback,
}

impl Failure {
    /// The one line that explains this failure.
    pub open spec fn spec_message(self) -> Seq<char> {
        match self {
            Failure::InputNotFound => "input file not found"@,
            Failure::InputUnreadable => "input file could not be read"@,
            Failure::OutputUnwritable => "output file could not be written"@,
            Failure::CodecEncodeFailure => "the codec failed to encode the data"@,
            Failure::CodecDecodeFailure => "the data is not a valid container for the selected algorithm"@,
        }
    }

    /// Returns the explanatory line for this failure.
    pub fn message(self) -> (r: &'static str)
        ensures
            r@ == self.spec_message(),
    {
        match self {
            Failure::InputNotFound => "input file not found",
            Failure::InputUnreadable => "input file could not be read",
            Failure::OutputUnwritable => "output file could not be written",
            Failure::CodecEncodeFailure => "the codec failed to encode the data",
            Failure::CodecDecodeFailure => "the data is not a valid container for the selected algorithm",
        }
    }
}

impl Notice {
    /// The one line that reports this fallback.
    pub open spec fn spec_message(self) -> Seq<char> {
        match self {
            Notice::InvalidSelectorFallback => "unrecognised algorithm, using the default"@,
            Notice::InvalidLevelFallback => "unreadable level, using the default"@,
        }
    }

    /// Returns the line that reports this fallback.
    pub fn message(self) -> (r: &'static str)
        ensures
            r@ == self.spec_message(),
    {
        match self {
            Notice::InvalidSelectorFallback => "unrecognised algorithm, using the default",
            Notice::InvalidLevelFallback => "unreadable level, using the default",
        }
    }
}

} // verus!
