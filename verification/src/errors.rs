use vstd::prelude::*;

verus! {

/// Everything that can go wrong on a run, one variant per kind.
/// Each variant carries the diagnostic text that accompanies it.
#[derive(Debug)]
pub enum Error {
    /// No size-and-unit argument was supplied at all.
    NotArgumentSizeAndUnitProvided(String),
    /// The argument does not split into exactly two whitespace-separated tokens.
    InvalidParsedSizeAndUnit(String),
    /// The first token is not a plain base-10 integer that fits in `u64`.
    InvalidParsedSize(String),
    /// The second token is none of the recognized unit spellings.
    InvalidParsedUnit(String),
    /// The conversion would exceed `u64::MAX` at the bytes scale.
    Overflow(String),
}

/// The text of the message that `Error::message` renders.
pub open spec fn message_view(e: Error) -> Seq<char> {
    match e {
        Error::NotArgumentSizeAndUnitProvided(s) => "NotArgumentSizeAndUnitProvided: "@ + s@,
        Error::InvalidParsedSizeAndUnit(s) => "InvalidParsedSizeAndUnit: "@ + s@,
        Error::InvalidParsedSize(s) => "InvalidParsedSize: "@ + s@,
        Error::InvalidParsedUnit(s) => "InvalidParsedUnit: "@ + s@,
        Error::Overflow(s) => "Overflow: "@ + s@,
    }
}

impl Error {
    /// A human-readable message naming the error kind and the text it carries.
    pub fn message(&self) -> (r: String)
        ensures
            r@ == message_view(*self),
    {
        match self {
            Error::NotArgumentSizeAndUnitProvided(s) => {
                String::from_str("NotArgumentSizeAndUnitProvided: ").concat(s.as_str())
            },
            Error::InvalidParsedSizeAndUnit(s) => {
                String::from_str("InvalidParsedSizeAndUnit: ").concat(s.as_str())
            },
            Error::InvalidParsedSize(s) => {
                String::from_str("InvalidParsedSize: ").concat(s.as_str())
            },
            Error::InvalidParsedUnit(s) => {
                String::from_str("InvalidParsedUnit: ").concat(s.as_str())
            },
            Error::Overflow(s) => String::from_str("Overflow: ").concat(s.as_str()),
        }
    }
}

} // verus!
