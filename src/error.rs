use vstd::prelude::*;

verus! {

/// What went wrong while turning text, bytes or an integer into a code.
#[derive(Debug, Clone, Copy, PartialEq, Eq, Structural)]
pub enum FccConversionError {
    /// The text holds more than four bytes.
    TooLong,
    /// The text holds fewer than four bytes.
    TooShort,
    /// A byte or character is not printable ASCII.
    InvalidChar,
}

/// The fixed message that goes with each kind of error.
pub open spec fn description_text(e: FccConversionError) -> Seq<char> {
    match e {
        FccConversionError::TooLong => "four char code is too long"@,
        FccConversionError::TooShort => "four char code is too short"@,
        FccConversionError::InvalidChar => "invalid char in four char code"@,
    }
}

impl FccConversionError {
    /// A human-readable message for this error.
    pub fn description(&self) -> (r: &'static str)
        ensures
            r@ == description_text(*self),
    {
        match self {
            FccConversionError::TooLong => "four char code is too long",
            FccConversionError::TooShort => "four char code is too short",
            FccConversionError::InvalidChar => "invalid char in four char code",
        }
    }
}

} // verus!
