//! The errors of unit arithmetic, of conversions and of parsing.

use vstd::prelude::*;

use crate::magnitude::Magnitude;
use crate::unit::Unit;

verus! {

/// A range of byte offsets into a text: from `start` up to, not including,
/// `end`.
#[derive(Debug, Clone, Copy, PartialEq, Eq, Structural, Hash)]
pub struct Span {
    pub start: usize,
    pub end: usize,
}

/// Why a piece of a text is no token.
#[derive(Debug, Clone, PartialEq, Eq)]
pub enum LexingError {
    /// The piece looks like a number and is none; the message says why.
    InvalidFloat(String),
    /// The piece looks like an integer and is none; the message says why.
    InvalidInt(String),
    /// The piece is nothing that a quantity text may hold.
    CouldNotParse,
}

impl Default for LexingError {
    fn default() -> (r: LexingError)
        ensures
            r == LexingError::CouldNotParse,
    {
        LexingError::CouldNotParse
    }
}

/// Two units that an operation needed to be equal and that are not: the
/// left-hand unit first.
#[derive(Debug, Clone, Copy, PartialEq, Eq, Structural)]
pub struct UnitsNotEqual(pub Unit, pub Unit);

/// A root of a unit that does not exist.
#[derive(Debug, Clone, Copy, PartialEq, Eq, Structural)]
pub struct RootError {
    /// The root index that was asked for.
    pub n: i32,
    /// The unit whose exponents cannot all be divided by `n`.
    pub unit: Unit,
}

/// A complex value that was to become a real one and has an imaginary part.
#[derive(Debug, Clone, PartialEq, Eq)]
pub struct NotConvertibleFromComplexF64 {
    /// The value that could not be converted.
    pub source: Magnitude,
    /// The name of the type that was asked for.
    pub target_type: &'static str,
}

/// Why a text could not be parsed into a quantity.
#[derive(Debug, Clone, PartialEq, Eq)]
pub enum ParseErrorReason {
    /// The text holds something that is no token.
    UnexpectedToken,
    /// The text holds no token at all.
    InputIsEmpty,
    /// A bracket is closed that was not opened, or one is left open.
    UnbalancedBrackets,
    /// Two numbers follow each other with nothing between them.
    TwoNumbersWithoutOperator,
    /// Two operators follow each other with nothing between them.
    TwoOperatorsWithoutNumber,
    /// The text starts with a token that needs something before it.
    MustNotStartWith,
    /// Two quantities of different units were to be added or subtracted.
    UnitsOfSummandsNotIdentical(UnitsNotEqual),
    /// The value has an imaginary part and a real value was asked for.
    NotConvertibleFromComplexF64(NotConvertibleFromComplexF64),
    /// Every other failure: an exponent that leaves the range of `i32`.
    CouldNotParse,
}

impl Default for ParseErrorReason {
    fn default() -> (r: ParseErrorReason)
        ensures
            r == ParseErrorReason::CouldNotParse,
    {
        ParseErrorReason::CouldNotParse
    }
}

/// A failed attempt to parse a text into a quantity.
#[derive(Debug, Clone, PartialEq, Eq)]
pub struct ParseError {
    /// The part of the text at which parsing failed.
    pub substring: String,
    /// The byte offsets of that part in the text.
    pub span: Span,
    /// Why parsing failed.
    pub reason: ParseErrorReason,
}

/// A failed conversion between types that represent quantities.
#[derive(Debug, Clone, PartialEq, Eq)]
pub enum ConversionError {
    /// The value has an imaginary part and a real value was asked for.
    NotConvertibleFromComplexF64(NotConvertibleFromComplexF64),
    /// A unit was expected and another one found.
    UnitMismatch {
        /// The unit that was expected.
        expected: Unit,
        /// The unit that was found.
        found: Unit,
    },
    /// Any other error, as a message.
    Custom(String),
}

impl ConversionError {
    /// An error that holds a message.
    pub fn custom(message: &str) -> (r: ConversionError)
        ensures
            r matches ConversionError::Custom(text) && text@ == message@,
    {
        ConversionError::Custom(message.to_owned())
    }
}

} // verus!
