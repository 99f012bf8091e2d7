//! The tokens that a quantity text is made of.

use vstd::prelude::*;

use crate::magnitude::Literal;
use crate::unit::{fits_i32, PredefUnit, Unit};

verus! {

/// What a unit symbol carries besides its name: the power the unit is raised
/// to, and the power of ten of its metric prefix.
#[derive(Debug, Clone, Copy, PartialEq, Eq, Structural, Hash)]
pub struct Exponents {
    /// The exponent of the unit; `1` where none is written.
    pub unit: i32,
    /// The power of ten of the metric prefix; `0` where there is none.
    pub prefix: i32,
}

impl Exponents {
    /// The power of ten that the prefix contributes once the unit is raised
    /// to its exponent: `mm^2` is `10^-6 m^2`.
    pub fn exponent(&self) -> (r: i32)
        requires
            fits_i32(self.unit * self.prefix),
        ensures
            r == self.unit * self.prefix,
    {
        self.unit * self.prefix
    }
}

/// One token of a quantity text.
#[derive(Debug, Clone, Copy, PartialEq, Eq, Structural, Hash)]
pub enum Token {
    /// A real number; the literal is its text.
    Real(Literal),
    /// An imaginary number; the literal is the text of its imaginary part,
    /// empty where only `i` or `j` is written.
    Imag(Literal),
    /// A power of ten, written `*10^n` or `en`.
    PowerOfTen(i32),
    /// Positive infinity.
    Infinity,
    /// Negative infinity.
    NegInfinity,
    /// `(`
    LeftBracket,
    /// `)` with the exponent written behind it; `1` where there is none.
    RightBracket(i32),
    /// `+`
    Add,
    /// `-`
    Sub,
    /// `*`
    Mul,
    /// `/`
    Div,
    /// `%`
    Percent,
    /// `s`
    Second(Exponents),
    /// `m`
    Meter(Exponents),
    /// `g`
    Gram(Exponents),
    /// `A`
    Ampere(Exponents),
    /// `K`
    Kelvin(Exponents),
    /// `mol`
    Mol(Exponents),
    /// `cd`
    Candela(Exponents),
    /// `°C`
    Celsius(Exponents),
    /// `V`
    Volt(Exponents),
    /// `N`
    Newton(Exponents),
    /// `Nm`
    NewtonMeter(Exponents),
    /// `W`
    Watt(Exponents),
    /// `J`
    Joule(Exponents),
    /// `Hz`
    Hertz(Exponents),
    /// `rpm`
    RotationsPerMinute(Exponents),
    /// `Wb`
    Weber(Exponents),
    /// `T`
    Tesla(Exponents),
    /// `H`
    Henry(Exponents),
    /// `S`
    Siemens(Exponents),
    /// `t`
    Ton(Exponents),
    /// `Ohm` or `ohm`
    Ohm(Exponents),
    /// `Ω`
    Omega(Exponents),
    /// `pi`, `π`, `PI` or `Pi`
    Pi(Exponents),
    /// `degree`, `°`, `Degree`, `deg` or `Deg`
    Degree(Exponents),
    /// `rad`, `radians`, `Rad` or `Radians`
    Radians(Exponents),
}

/// How a unit symbol changes the value it stands behind, besides the power
/// of ten of its prefix.
#[derive(Debug, Clone, Copy, PartialEq, Eq, Structural, Hash)]
pub enum Conversion {
    /// Nothing but the prefix.
    Plain,
    /// The offset between degrees Celsius and kelvin is added.
    Celsius,
    /// The value is multiplied by a power of pi.
    Pi,
    /// Rotations per minute become rotations per second.
    PerMinute,
    /// Degrees become radians.
    Degree,
}

/// What a unit symbol means: the unit it stands for when its exponent is
/// one, the powers of ten that it carries beyond its prefix (a gram is
/// `10^-3` kilogram, a ton `10^3`), and how it converts the value.
#[derive(Debug, Clone, Copy, PartialEq, Eq, Structural, Hash)]
pub struct Meaning {
    pub base: Unit,
    pub shift: i32,
    pub conversion: Conversion,
    pub exponents: Exponents,
}

/// The dimensionless unit.
pub open spec fn no_unit() -> Unit {
    Unit { second: 0, meter: 0, kilogram: 0, ampere: 0, kelvin: 0, mol: 0, candela: 0 }
}

impl Token {
    /// The meaning of a token that is a unit symbol or a constant; `None`
    /// for numbers, operators and brackets.
    pub open spec fn spec_meaning(self) -> Option<Meaning> {
        match self {
            Token::Second(e) => Some(plain(PredefUnit::Time.unit(), e)),
            Token::Meter(e) => Some(plain(PredefUnit::Length.unit(), e)),
            Token::Gram(e) => Some(
                Meaning {
                    base: PredefUnit::Mass.unit(),
                    shift: -3i32,
                    conversion: Conversion::Plain,
                    exponents: e,
                },
            ),
            Token::Ampere(e) => Some(plain(PredefUnit::ElectricCurrent.unit(), e)),
            Token::Kelvin(e) => Some(plain(PredefUnit::Temperature.unit(), e)),
            Token::Mol(e) => Some(plain(PredefUnit::AmountOfSubstance.unit(), e)),
            Token::Candela(e) => Some(plain(PredefUnit::LuminousIntensity.unit(), e)),
            Token::Celsius(e) => Some(
                Meaning {
                    base: PredefUnit::Temperature.unit(),
                    shift: 0,
                    conversion: Conversion::Celsius,
                    exponents: e,
                },
            ),
            Token::Volt(e) => Some(plain(PredefUnit::ElectricVoltage.unit(), e)),
            Token::Newton(e) => Some(plain(PredefUnit::Force.unit(), e)),
            Token::NewtonMeter(e) => Some(plain(PredefUnit::Torque.unit(), e)),
            Token::Watt(e) => Some(plain(PredefUnit::Power.unit(), e)),
            Token::Joule(e) => Some(plain(PredefUnit::Energy.unit(), e)),
            Token::Hertz(e) => Some(plain(PredefUnit::Frequency.unit(), e)),
            Token::RotationsPerMinute(e) => Some(
                Meaning {
                    base: PredefUnit::AngularVelocity.unit(),
                    shift: 0,
                    conversion: Conversion::PerMinute,
                    exponents: e,
                },
            ),
            Token::Weber(e) => Some(plain(PredefUnit::MagneticFlux.unit(), e)),
            Token::Tesla(e) => Some(plain(PredefUnit::MagneticFluxDensity.unit(), e)),
            Token::Henry(e) => Some(plain(PredefUnit::Inductance.unit(), e)),
            Token::Siemens(e) => Some(plain(PredefUnit::ElectricConductance.unit(), e)),
            Token::Ton(e) => Some(
                Meaning {
                    base: PredefUnit::Mass.unit(),
                    shift: 3i32,
                    conversion: Conversion::Plain,
                    exponents: e,
                },
            ),
            Token::Ohm(e) => Some(plain(PredefUnit::ElectricResistance.unit(), e)),
            Token::Omega(e) => Some(plain(PredefUnit::ElectricResistance.unit(), e)),
            Token::Pi(e) => Some(
                Meaning { base: no_unit(), shift: 0, conversion: Conversion::Pi, exponents: e },
            ),
            Token::Degree(e) => Some(
                Meaning { base: no_unit(), shift: 0, conversion: Conversion::Degree, exponents: e },
            ),
            Token::Radians(e) => Some(plain(no_unit(), e)),
            _ => None,
        }
    }

    /// The meaning of a token that is a unit symbol or a constant; `None`
    /// for numbers, operators and brackets.
    pub fn meaning(self) -> (r: Option<Meaning>)
        ensures
            r == self.spec_meaning(),
    {
        match self {
            Token::Second(e) => Some(plain_meaning(PredefUnit::Time, e)),
            Token::Meter(e) => Some(plain_meaning(PredefUnit::Length, e)),
            Token::Gram(e) => Some(
                Meaning {
                    base: Unit::from(PredefUnit::Mass),
                    shift: -3,
                    conversion: Conversion::Plain,
                    exponents: e,
                },
            ),
            Token::Ampere(e) => Some(plain_meaning(PredefUnit::ElectricCurrent, e)),
            Token::Kelvin(e) => Some(plain_meaning(PredefUnit::Temperature, e)),
            Token::Mol(e) => Some(plain_meaning(PredefUnit::AmountOfSubstance, e)),
            Token::Candela(e) => Some(plain_meaning(PredefUnit::LuminousIntensity, e)),
            Token::Celsius(e) => Some(
                Meaning {
                    base: Unit::from(PredefUnit::Temperature),
                    shift: 0,
                    conversion: Conversion::Celsius,
                    exponents: e,
                },
            ),
            Token::Volt(e) => Some(plain_meaning(PredefUnit::ElectricVoltage, e)),
            Token::Newton(e) => Some(plain_meaning(PredefUnit::Force, e)),
            Token::NewtonMeter(e) => Some(plain_meaning(PredefUnit::Torque, e)),
            Token::Watt(e) => Some(plain_meaning(PredefUnit::Power, e)),
            Token::Joule(e) => Some(plain_meaning(PredefUnit::Energy, e)),
            Token::Hertz(e) => Some(plain_meaning(PredefUnit::Frequency, e)),
            Token::RotationsPerMinute(e) => Some(
                Meaning {
                    base: Unit::from(PredefUnit::AngularVelocity),
                    shift: 0,
                    conversion: Conversion::PerMinute,
                    exponents: e,
                },
            ),
            Token::Weber(e) => Some(plain_meaning(PredefUnit::MagneticFlux, e)),
            Token::Tesla(e) => Some(plain_meaning(PredefUnit::MagneticFluxDensity, e)),
            Token::Henry(e) => Some(plain_meaning(PredefUnit::Inductance, e)),
            Token::Siemens(e) => Some(plain_meaning(PredefUnit::ElectricConductance, e)),
            Token::Ton(e) => Some(
                Meaning {
                    base: Unit::from(PredefUnit::Mass),
                    shift: 3,
                    conversion: Conversion::Plain,
                    exponents: e,
                },
            ),
            Token::Ohm(e) => Some(plain_meaning(PredefUnit::ElectricResistance, e)),
            Token::Omega(e) => Some(plain_meaning(PredefUnit::ElectricResistance, e)),
            Token::Pi(e) => Some(
                Meaning {
                    base: Unit::default(),
                    shift: 0,
                    conversion: Conversion::Pi,
                    exponents: e,
                },
            ),
            Token::Degree(e) => Some(
                Meaning {
                    base: Unit::default(),
                    shift: 0,
                    conversion: Conversion::Degree,
                    exponents: e,
                },
            ),
            Token::Radians(e) => Some(
                Meaning {
                    base: Unit::default(),
                    shift: 0,
                    conversion: Conversion::Plain,
                    exponents: e,
                },
            ),
            _ => None,
        }
    }
}

/// The meaning of a symbol that stands for a unit and nothing else.
pub open spec fn plain(base: Unit, exponents: Exponents) -> Meaning {
    Meaning { base, shift: 0, conversion: Conversion::Plain, exponents }
}

/// The meaning of a symbol that stands for a named unit and nothing else.
fn plain_meaning(name: PredefUnit, exponents: Exponents) -> (r: Meaning)
    ensures
        r == plain(name.unit(), exponents),
{
    Meaning { base: Unit::from(name), shift: 0, conversion: Conversion::Plain, exponents }
}

} // verus!
