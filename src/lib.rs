use vstd::prelude::*;

pub mod bytes;
pub mod code;
pub mod error;
pub mod format;
pub mod laws;

pub use code::{four_char_code, FourCharCode};
pub use error::FccConversionError;
pub use format::{fcc_format, FccBuf};

verus! {

} // verus!
