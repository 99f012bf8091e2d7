//! The numerical value of a quantity, as the expression that computes it.
//!
//! The verified part of this crate never touches a binary floating-point
//! number. It records which operations on complex binary64 numbers make up
//! a value, in which order; a numeric back end carries them out. Two
//! magnitudes are equal when they are the same expression.

use vstd::prelude::*;

verus! {

/// The place of a decimal literal in the text that was parsed: the bytes
/// from `start` up to, not including, `end`. The text there consists of
/// digits with at most one decimal point. An empty literal stands for the
/// number one.
#[derive(Debug, Clone, Copy, PartialEq, Eq, Structural, Hash)]
pub struct Literal {
    pub start: usize,
    pub end: usize,
}

/// The sign of an infinite value.
#[derive(Debug, Clone, Copy, PartialEq, Eq, Structural, Hash)]
pub enum Sign {
    Positive,
    Negative,
}

/// A real factor that a unit or a constant multiplies into a value. Each
/// variant is one real number: powers are integer powers, and `ten` is the
/// power of ten that comes from a metric prefix.
#[derive(Debug, Clone, Copy, PartialEq, Eq, Structural, Hash)]
pub enum Factor {
    /// One hundredth, written as the literal `1e-2`.
    Percent,
    /// `10^ten`.
    Ten(i32),
    /// `pi^power * 10^ten`.
    Pi { power: i32, ten: i32 },
    /// `(1/60)^power * 10^ten`: rotations per minute in rotations per second.
    PerMinute { power: i32, ten: i32 },
    /// `(pi/180)^power * 10^ten`: degrees in radians.
    Degree { power: i32, ten: i32 },
}

/// A complex number, given by the operations that compute it.
#[derive(Debug, PartialEq, Eq)]
pub enum Magnitude {
    /// The real number `1`.
    One,
    /// The real number `-1`.
    MinusOne,
    /// A complex number given by the bit patterns of its real and imaginary
    /// part as binary64 numbers.
    Number { re: u64, im: u64 },
    /// The real number that a decimal literal denotes.
    Real(Literal),
    /// The imaginary number whose imaginary part a decimal literal denotes.
    Imag(Literal),
    /// The real number `10^n`.
    PowerOfTen(i32),
    /// Real infinity of the given sign.
    Infinite(Sign),
    /// The product of two values in which a partial product of zero and
    /// infinity counts as zero.
    Product(Box<Magnitude>, Box<Magnitude>),
    /// A value multiplied by a real factor.
    Scaled(Box<Magnitude>, Factor),
    /// A value to which `273.15^power` is added and which is then multiplied
    /// by `10^ten`: the step that a temperature in degrees Celsius takes.
    Celsius { value: Box<Magnitude>, power: i32, ten: i32 },
    /// A value whose non-zero parts are replaced by infinity: each takes the
    /// sign of the value's real part, reversed for `Sign::Negative`.
    Unbounded(Box<Magnitude>, Sign),
    /// The sum of two values.
    Sum(Box<Magnitude>, Box<Magnitude>),
    /// The first value minus the second.
    Difference(Box<Magnitude>, Box<Magnitude>),
    /// The plain complex product of two values.
    Times(Box<Magnitude>, Box<Magnitude>),
    /// The first value divided by the second. Where the first is infinite, a
    /// part of the quotient that is not a number counts as zero.
    Over(Box<Magnitude>, Box<Magnitude>),
    /// A value raised to an integer power.
    Power(Box<Magnitude>, i32),
    /// The principal `n`th root of a value.
    Root(Box<Magnitude>, i32),
}

impl Clone for Magnitude {
    fn clone(&self) -> (r: Magnitude)
        ensures
            r == *self,
        decreases self,
    {
        match self {
            Magnitude::One => Magnitude::One,
            Magnitude::MinusOne => Magnitude::MinusOne,
            Magnitude::Number { re, im } => Magnitude::Number { re: *re, im: *im },
            Magnitude::Real(lit) => Magnitude::Real(*lit),
            Magnitude::Imag(lit) => Magnitude::Imag(*lit),
            Magnitude::PowerOfTen(n) => Magnitude::PowerOfTen(*n),
            Magnitude::Infinite(sign) => Magnitude::Infinite(*sign),
            Magnitude::Product(a, b) => Magnitude::Product(
                Box::new((**a).clone()),
                Box::new((**b).clone()),
            ),
            Magnitude::Scaled(a, factor) => Magnitude::Scaled(Box::new((**a).clone()), *factor),
            Magnitude::Celsius { value, power, ten } => Magnitude::Celsius {
                value: Box::new((**value).clone()),
                power: *power,
                ten: *ten,
            },
            Magnitude::Unbounded(a, sign) => Magnitude::Unbounded(Box::new((**a).clone()), *sign),
            Magnitude::Sum(a, b) => Magnitude::Sum(
                Box::new((**a).clone()),
                Box::new((**b).clone()),
            ),
            Magnitude::Difference(a, b) => Magnitude::Difference(
                Box::new((**a).clone()),
                Box::new((**b).clone()),
            ),
            Magnitude::Times(a, b) => Magnitude::Times(
                Box::new((**a).clone()),
                Box::new((**b).clone()),
            ),
            Magnitude::Over(a, b) => Magnitude::Over(
                Box::new((**a).clone()),
                Box::new((**b).clone()),
            ),
            Magnitude::Power(a, n) => Magnitude::Power(Box::new((**a).clone()), *n),
            Magnitude::Root(a, n) => Magnitude::Root(Box::new((**a).clone()), *n),
        }
    }
}

impl crate::unit::UnitFromType for Magnitude {
}

} // verus!
