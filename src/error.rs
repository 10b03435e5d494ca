//! The errors that the drivers report to their clients.
use vstd::prelude::*;

verus! {

/// Why a request was refused or did not complete.
#[derive(Clone, Copy, Debug, PartialEq, Eq, Structural)]
pub enum DisplayError {
    /// Another action is still outstanding.
    Busy,
    /// The requested length exceeds the buffer that was supplied.
    InvalidSize,
    /// The request is not implemented.
    Unsupported,
    /// A byte of text has no glyph; it was shown as a blank.
    InvalidCharacter,
    /// No text buffer has been shared with the driver.
    NoBuffer,
}

} // verus!
