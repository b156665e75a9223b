//! Errors raised while converting or rendering values.
use vstd::prelude::*;

verus! {

/// What went wrong while building or rendering Gerber code.
#[derive(Debug, Clone, PartialEq, Eq)]
pub enum GerberError {
    /// A value could not be represented as a coordinate number or a date.
    ConversionError(String),
    /// A coordinate number does not fit the coordinate format, or the format
    /// asks for more decimal places than a coordinate number holds.
    CoordinateFormatError(String),
    /// A coordinate pair has neither of its two axes.
    EmptyCoordinates,
}

/// `e` is a coordinate-format error carrying `message`.
pub open spec fn is_format_error(e: GerberError, message: Seq<char>) -> bool {
    match e {
        GerberError::CoordinateFormatError(m) => m@ == message,
        _ => false,
    }
}

/// `e` is a conversion error carrying `message`.
pub open spec fn is_conversion_error(e: GerberError, message: Seq<char>) -> bool {
    match e {
        GerberError::ConversionError(m) => m@ == message,
        _ => false,
    }
}

} // verus!
