//! Physical quantities whose unit of measurement is known only at run time.
//!
//! A quantity is a value and a unit. The unit is the vector of the
//! exponents of the seven SI base units, so that the units of products,
//! quotients, powers and roots can be computed, and sums of quantities of
//! different units can be refused.
//!
//! The heart of the crate is [`parse`], which reads a quantity from a text
//! such as `1 kA / m * 3.14 m^2`. The [`lexer`] cuts the text into tokens
//! and the [`evaluator`] builds the quantity from them; the [`laws`] say
//! what holds of the evaluator for all tokens.
//!
//! The crate keeps away from floating-point arithmetic. The value of a
//! quantity is a [`Magnitude`]: the record of the operations on complex
//! binary64 numbers that compute it. Carrying them out is left to the
//! caller.

pub mod boundary;
pub mod constructors;
pub mod error;
pub mod evaluator;
pub mod laws;
pub mod lexer;
pub mod magnitude;
pub mod parser;
pub mod quantity;
pub mod scan;
pub mod symbol;
pub mod text;
pub mod token;
pub mod unit;
pub mod vector;

pub use error::{
    ConversionError, LexingError, NotConvertibleFromComplexF64, ParseError, ParseErrorReason,
    RootError, Span, UnitsNotEqual,
};
pub use lexer::Lexer;
pub use magnitude::{Factor, Literal, Magnitude, Sign};
pub use parser::{parse, parse_bytes, parse_from, parse_within, Failure};
pub use quantity::{to_vec, to_vec_checked, DynQuantity};
pub use token::{Exponents, Token};
pub use unit::{Dimension, PredefUnit, Unit, UnitExponents, UnitFromType};
pub use vector::{mixed_at, parse_vector, VectorError};
