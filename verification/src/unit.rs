//! Units of measurement as exponent vectors over the seven SI base units.

use vstd::prelude::*;
use vstd::std_specs::convert::FromSpecImpl;
use vstd::std_specs::ops::{DivSpecImpl, MulSpecImpl};

use crate::error::RootError;

verus! {

/// Whether an integer can be stored in an `i32`.
pub open spec fn fits_i32(v: int) -> bool {
    i32::MIN <= v <= i32::MAX
}

/// The mathematical model of a unit: one integer exponent for each SI base
/// unit. Multiplying quantities adds these vectors, dividing subtracts them
/// and raising to a power scales them.
pub struct Dimension {
    pub second: int,
    pub meter: int,
    pub kilogram: int,
    pub ampere: int,
    pub kelvin: int,
    pub mol: int,
    pub candela: int,
}

impl Dimension {
    /// The dimension of a pure number.
    pub open spec fn none() -> Dimension {
        Dimension { second: 0, meter: 0, kilogram: 0, ampere: 0, kelvin: 0, mol: 0, candela: 0 }
    }

    /// Component-wise sum: the dimension of a product.
    pub open spec fn times(self, rhs: Dimension) -> Dimension {
        Dimension {
            second: self.second + rhs.second,
            meter: self.meter + rhs.meter,
            kilogram: self.kilogram + rhs.kilogram,
            ampere: self.ampere + rhs.ampere,
            kelvin: self.kelvin + rhs.kelvin,
            mol: self.mol + rhs.mol,
            candela: self.candela + rhs.candela,
        }
    }

    /// Component-wise difference: the dimension of a quotient.
    pub open spec fn over(self, rhs: Dimension) -> Dimension {
        Dimension {
            second: self.second - rhs.second,
            meter: self.meter - rhs.meter,
            kilogram: self.kilogram - rhs.kilogram,
            ampere: self.ampere - rhs.ampere,
            kelvin: self.kelvin - rhs.kelvin,
            mol: self.mol - rhs.mol,
            candela: self.candela - rhs.candela,
        }
    }

    /// Every exponent multiplied by `n`: the dimension of an integer power.
    pub open spec fn raised(self, n: int) -> Dimension {
        Dimension {
            second: self.second * n,
            meter: self.meter * n,
            kilogram: self.kilogram * n,
            ampere: self.ampere * n,
            kelvin: self.kelvin * n,
            mol: self.mol * n,
            candela: self.candela * n,
        }
    }

    /// Whether every exponent can be stored in an `i32`.
    pub open spec fn fits(self) -> bool {
        &&& fits_i32(self.second)
        &&& fits_i32(self.meter)
        &&& fits_i32(self.kilogram)
        &&& fits_i32(self.ampere)
        &&& fits_i32(self.kelvin)
        &&& fits_i32(self.mol)
        &&& fits_i32(self.candela)
    }

    /// The unit that stores this dimension; meaningful where `fits` holds.
    pub open spec fn unit(self) -> Unit
        recommends
            self.fits(),
    {
        Unit {
            second: self.second as i32,
            meter: self.meter as i32,
            kilogram: self.kilogram as i32,
            ampere: self.ampere as i32,
            kelvin: self.kelvin as i32,
            mol: self.mol as i32,
            candela: self.candela as i32,
        }
    }
}

/// A unit of measurement, given by the exponents of the seven SI base units.
#[derive(Debug, Clone, Copy, PartialEq, Eq, Structural, Hash)]
pub struct Unit {
    /// Exponent of the second (time).
    pub second: i32,
    /// Exponent of the meter (length).
    pub meter: i32,
    /// Exponent of the kilogram (mass).
    pub kilogram: i32,
    /// Exponent of the ampere (electrical current).
    pub ampere: i32,
    /// Exponent of the kelvin (temperature).
    pub kelvin: i32,
    /// Exponent of the mol (amount of substance).
    pub mol: i32,
    /// Exponent of the candela (luminous intensity).
    pub candela: i32,
}

/// Another name for [`Unit`], under which its named constructors are reached.
pub type UnitExponents = Unit;

impl View for Unit {
    type V = Dimension;

    open spec fn view(&self) -> Dimension {
        Dimension {
            second: self.second as int,
            meter: self.meter as int,
            kilogram: self.kilogram as int,
            ampere: self.ampere as int,
            kelvin: self.kelvin as int,
            mol: self.mol as int,
            candela: self.candela as int,
        }
    }
}

impl Default for Unit {
    /// The dimensionless unit.
    fn default() -> (r: Unit)
        ensures
            r@ == Dimension::none(),
    {
        Unit { second: 0, meter: 0, kilogram: 0, ampere: 0, kelvin: 0, mol: 0, candela: 0 }
    }
}

/// The exact quotient of `exp` by `n`, where there is one that fits an `i32`.
pub open spec fn exact_quotient(exp: int, n: int) -> Option<i32> {
    if n != 0 && exp % n == 0 && fits_i32(exp / n) {
        Some((exp / n) as i32)
    } else {
        None
    }
}

/// Divides one exponent by `n` if that leaves no remainder.
fn divide_exponent(exp: i32, n: i32) -> (r: Option<i32>)
    ensures
        r == exact_quotient(exp as int, n as int),
        r is Some ==> r->0 * n == exp,
{
    if n == 0 {
        return None;
    }
    if n == -1 {
        assert(exp as int / -1 == -exp && exp as int % -1 == 0) by (nonlinear_arith);
        return 0i32.checked_sub(exp);
    }
    let m = exp.checked_rem_euclid(n);
    let q = exp.checked_div_euclid(n);
    proof {
        vstd::arithmetic::div_mod::lemma_fundamental_div_mod(exp as int, n as int);
        let e = exp as int;
        let d = n as int;
        assert(fits_i32(e / d) && fits_i32(e % d)) by (nonlinear_arith)
            requires
                fits_i32(e),
                fits_i32(d),
                d != 0,
                d != -1,
                e == d * (e / d) + e % d,
                0 <= e % d < (if d < 0 { -d } else { d }),
        ;
        assert(e % d == 0 ==> (e / d) * d == e) by (nonlinear_arith)
            requires
                e == d * (e / d) + e % d,
        ;
    }
    match m {
        Some(0) => q,
        _ => None,
    }
}

impl Unit {
    /// Whether the unit is dimensionless: all exponents are zero.
    pub fn is_dimensionless(&self) -> (r: bool)
        ensures
            r <==> self@ == Dimension::none(),
    {
        self.second == 0 && self.meter == 0 && self.kilogram == 0 && self.ampere == 0
            && self.kelvin == 0 && self.mol == 0 && self.candela == 0
    }

    /// The product of two units, or `None` where an exponent leaves the range
    /// of `i32`.
    pub fn checked_mul(self, rhs: Unit) -> (r: Option<Unit>)
        ensures
            r == self.spec_checked_mul(rhs),
    {
        let second = self.second.checked_add(rhs.second);
        let meter = self.meter.checked_add(rhs.meter);
        let kilogram = self.kilogram.checked_add(rhs.kilogram);
        let ampere = self.ampere.checked_add(rhs.ampere);
        let kelvin = self.kelvin.checked_add(rhs.kelvin);
        let mol = self.mol.checked_add(rhs.mol);
        let candela = self.candela.checked_add(rhs.candela);
        match (second, meter, kilogram, ampere, kelvin, mol, candela) {
            (Some(s), Some(m), Some(kg), Some(a), Some(k), Some(n), Some(cd)) => Some(
                Unit { second: s, meter: m, kilogram: kg, ampere: a, kelvin: k, mol: n, candela: cd },
            ),
            _ => None,
        }
    }

    /// What [`Unit::checked_mul`] returns.
    pub open spec fn spec_checked_mul(self, rhs: Unit) -> Option<Unit> {
        if self@.times(rhs@).fits() {
            Some(self@.times(rhs@).unit())
        } else {
            None
        }
    }

    /// The quotient of two units, or `None` where an exponent leaves the
    /// range of `i32`.
    pub fn checked_div(self, rhs: Unit) -> (r: Option<Unit>)
        ensures
            r == self.spec_checked_div(rhs),
    {
        let second = self.second.checked_sub(rhs.second);
        let meter = self.meter.checked_sub(rhs.meter);
        let kilogram = self.kilogram.checked_sub(rhs.kilogram);
        let ampere = self.ampere.checked_sub(rhs.ampere);
        let kelvin = self.kelvin.checked_sub(rhs.kelvin);
        let mol = self.mol.checked_sub(rhs.mol);
        let candela = self.candela.checked_sub(rhs.candela);
        match (second, meter, kilogram, ampere, kelvin, mol, candela) {
            (Some(s), Some(m), Some(kg), Some(a), Some(k), Some(n), Some(cd)) => Some(
                Unit { second: s, meter: m, kilogram: kg, ampere: a, kelvin: k, mol: n, candela: cd },
            ),
            _ => None,
        }
    }

    /// What [`Unit::checked_div`] returns.
    pub open spec fn spec_checked_div(self, rhs: Unit) -> Option<Unit> {
        if self@.over(rhs@).fits() {
            Some(self@.over(rhs@).unit())
        } else {
            None
        }
    }

    /// The unit raised to the power `n`, or `None` where an exponent leaves
    /// the range of `i32`.
    pub fn checked_powi(self, n: i32) -> (r: Option<Unit>)
        ensures
            r == self.spec_checked_powi(n),
    {
        let second = self.second.checked_mul(n);
        let meter = self.meter.checked_mul(n);
        let kilogram = self.kilogram.checked_mul(n);
        let ampere = self.ampere.checked_mul(n);
        let kelvin = self.kelvin.checked_mul(n);
        let mol = self.mol.checked_mul(n);
        let candela = self.candela.checked_mul(n);
        match (second, meter, kilogram, ampere, kelvin, mol, candela) {
            (Some(s), Some(m), Some(kg), Some(a), Some(k), Some(n), Some(cd)) => Some(
                Unit { second: s, meter: m, kilogram: kg, ampere: a, kelvin: k, mol: n, candela: cd },
            ),
            _ => None,
        }
    }

    /// What [`Unit::checked_powi`] returns.
    pub open spec fn spec_checked_powi(self, n: i32) -> Option<Unit> {
        if self@.raised(n as int).fits() {
            Some(self@.raised(n as int).unit())
        } else {
            None
        }
    }

    /// Raises the unit to an integer power: every exponent is multiplied by
    /// `n`.
    pub fn powi(self, n: i32) -> (r: Unit)
        requires
            self@.raised(n as int).fits(),
        ensures
            r@ == self@.raised(n as int),
    {
        Unit {
            second: self.second * n,
            meter: self.meter * n,
            kilogram: self.kilogram * n,
            ampere: self.ampere * n,
            kelvin: self.kelvin * n,
            mol: self.mol * n,
            candela: self.candela * n,
        }
    }

    /// The unit whose `n`th power is `self`, where there is one: every
    /// exponent must be divisible by `n`.
    pub open spec fn spec_nthroot(self, n: i32) -> Option<Unit> {
        match (
            exact_quotient(self.second as int, n as int),
            exact_quotient(self.meter as int, n as int),
            exact_quotient(self.kilogram as int, n as int),
            exact_quotient(self.ampere as int, n as int),
            exact_quotient(self.kelvin as int, n as int),
            exact_quotient(self.mol as int, n as int),
            exact_quotient(self.candela as int, n as int),
        ) {
            (Some(s), Some(m), Some(kg), Some(a), Some(k), Some(x), Some(cd)) => Some(
                Unit { second: s, meter: m, kilogram: kg, ampere: a, kelvin: k, mol: x, candela: cd },
            ),
            _ => None,
        }
    }

    /// Calculates the `n`th root of the unit. This fails, with the root index
    /// and the unit in the error, if `n` is zero, if an exponent is not
    /// divisible by `n`, or if a quotient does not fit an `i32`.
    pub fn try_nthroot(self, n: i32) -> (r: Result<Unit, RootError>)
        ensures
            match r {
                Ok(root) => self.spec_nthroot(n) == Some(root) && root@.raised(n as int) == self@,
                Err(e) => self.spec_nthroot(n) is None && e == (RootError { n, unit: self }),
            },
    {
        let second = divide_exponent(self.second, n);
        let meter = divide_exponent(self.meter, n);
        let kilogram = divide_exponent(self.kilogram, n);
        let ampere = divide_exponent(self.ampere, n);
        let kelvin = divide_exponent(self.kelvin, n);
        let mol = divide_exponent(self.mol, n);
        let candela = divide_exponent(self.candela, n);
        match (second, meter, kilogram, ampere, kelvin, mol, candela) {
            (Some(s), Some(m), Some(kg), Some(a), Some(k), Some(x), Some(cd)) => Ok(
                Unit { second: s, meter: m, kilogram: kg, ampere: a, kelvin: k, mol: x, candela: cd },
            ),
            _ => Err(RootError { n, unit: self }),
        }
    }
}

impl core::ops::Mul for Unit {
    type Output = Unit;

    /// Multiplies two units: the exponents are added.
    fn mul(self, rhs: Unit) -> (r: Unit) {
        Unit {
            second: self.second + rhs.second,
            meter: self.meter + rhs.meter,
            kilogram: self.kilogram + rhs.kilogram,
            ampere: self.ampere + rhs.ampere,
            kelvin: self.kelvin + rhs.kelvin,
            mol: self.mol + rhs.mol,
            candela: self.candela + rhs.candela,
        }
    }
}

impl MulSpecImpl for Unit {
    open spec fn obeys_mul_spec() -> bool {
        true
    }

    open spec fn mul_req(self, rhs: Unit) -> bool {
        self@.times(rhs@).fits()
    }

    open spec fn mul_spec(self, rhs: Unit) -> Unit {
        self@.times(rhs@).unit()
    }
}

impl core::ops::Div for Unit {
    type Output = Unit;

    /// Divides two units: the exponents are subtracted.
    fn div(self, rhs: Unit) -> (r: Unit) {
        Unit {
            second: self.second - rhs.second,
            meter: self.meter - rhs.meter,
            kilogram: self.kilogram - rhs.kilogram,
            ampere: self.ampere - rhs.ampere,
            kelvin: self.kelvin - rhs.kelvin,
            mol: self.mol - rhs.mol,
            candela: self.candela - rhs.candela,
        }
    }
}

impl DivSpecImpl for Unit {
    open spec fn obeys_div_spec() -> bool {
        true
    }

    open spec fn div_req(self, rhs: Unit) -> bool {
        self@.over(rhs@).fits()
    }

    open spec fn div_spec(self, rhs: Unit) -> Unit {
        self@.over(rhs@).unit()
    }
}

impl From<[i32; 7]> for Unit {
    /// Reads the exponents in the order second, meter, kilogram, ampere,
    /// kelvin, mol, candela.
    fn from(array: [i32; 7]) -> (r: Unit) {
        Unit {
            second: array[0],
            meter: array[1],
            kilogram: array[2],
            ampere: array[3],
            kelvin: array[4],
            mol: array[5],
            candela: array[6],
        }
    }
}

impl FromSpecImpl<[i32; 7]> for Unit {
    open spec fn obeys_from_spec() -> bool {
        true
    }

    open spec fn from_spec(array: [i32; 7]) -> Unit {
        Unit {
            second: array[0],
            meter: array[1],
            kilogram: array[2],
            ampere: array[3],
            kelvin: array[4],
            mol: array[5],
            candela: array[6],
        }
    }
}

impl From<Unit> for [i32; 7] {
    /// Writes the exponents in the order second, meter, kilogram, ampere,
    /// kelvin, mol, candela.
    fn from(value: Unit) -> (r: [i32; 7]) {
        [
            value.second,
            value.meter,
            value.kilogram,
            value.ampere,
            value.kelvin,
            value.mol,
            value.candela,
        ]
    }
}

impl FromSpecImpl<Unit> for [i32; 7] {
    open spec fn obeys_from_spec() -> bool {
        true
    }

    open spec fn from_spec(value: Unit) -> [i32; 7] {
        [
            value.second,
            value.meter,
            value.kilogram,
            value.ampere,
            value.kelvin,
            value.mol,
            value.candela,
        ]
    }
}

} // verus!

verus! {

/// Units that have a name of their own.
#[derive(Debug, Clone, Copy, PartialEq, Eq, Structural, Hash)]
pub enum PredefUnit {
    /// s (second)
    Time,
    /// m (meter)
    Length,
    /// kg (kilogram)
    Mass,
    /// A (ampere)
    ElectricCurrent,
    /// K (kelvin)
    Temperature,
    /// mol
    AmountOfSubstance,
    /// cd (candela)
    LuminousIntensity,
    /// m^2
    Area,
    /// m^3
    Volume,
    /// s^-3 m^2 kg A^-1 (volt)
    ElectricVoltage,
    /// s^-2 m kg (newton)
    Force,
    /// s^-2 m^2 kg (newton meter)
    Torque,
    /// s^-3 m^2 kg (watt)
    Power,
    /// s^-2 m^2 kg (joule)
    Energy,
    /// s^-1 (hertz)
    Frequency,
    /// s^-1 m (meter per second)
    Velocity,
    /// s^-1 (radians per second)
    AngularVelocity,
    /// s^-2 m^2 kg A^-1 (weber)
    MagneticFlux,
    /// s^-2 kg A^-1 (tesla)
    MagneticFluxDensity,
    /// m^-1 A (ampere per meter)
    MagneticFieldStrength,
    /// s^-2 m^2 kg A^-2 (henry)
    Inductance,
    /// s^3 m^-2 kg^-1 A^2 (siemens)
    ElectricConductance,
    /// s^-3 m^2 kg A^-2 (ohm)
    ElectricResistance,
    /// s^3 m^-3 kg^-1 A^2 (siemens per meter)
    ElectricConductivity,
    /// s^-3 m^3 kg A^-2 (ohm meter)
    ElectricResistivity,
}

/// A unit of the four exponents that the named units use; the others are
/// zero.
pub open spec fn mechanical(second: int, meter: int, kilogram: int, ampere: int) -> Unit {
    Unit {
        second: second as i32,
        meter: meter as i32,
        kilogram: kilogram as i32,
        ampere: ampere as i32,
        kelvin: 0,
        mol: 0,
        candela: 0,
    }
}

impl PredefUnit {
    /// The unit that the name stands for.
    pub open spec fn unit(self) -> Unit {
        match self {
            PredefUnit::Time => mechanical(1, 0, 0, 0),
            PredefUnit::Length => mechanical(0, 1, 0, 0),
            PredefUnit::Mass => mechanical(0, 0, 1, 0),
            PredefUnit::ElectricCurrent => mechanical(0, 0, 0, 1),
            PredefUnit::Temperature => Unit {
                second: 0,
                meter: 0,
                kilogram: 0,
                ampere: 0,
                kelvin: 1,
                mol: 0,
                candela: 0,
            },
            PredefUnit::AmountOfSubstance => Unit {
                second: 0,
                meter: 0,
                kilogram: 0,
                ampere: 0,
                kelvin: 0,
                mol: 1,
                candela: 0,
            },
            PredefUnit::LuminousIntensity => Unit {
                second: 0,
                meter: 0,
                kilogram: 0,
                ampere: 0,
                kelvin: 0,
                mol: 0,
                candela: 1,
            },
            PredefUnit::Area => mechanical(0, 2, 0, 0),
            PredefUnit::Volume => mechanical(0, 3, 0, 0),
            PredefUnit::ElectricVoltage => mechanical(-3, 2, 1, -1),
            PredefUnit::Force => mechanical(-2, 1, 1, 0),
            PredefUnit::Torque => mechanical(-2, 2, 1, 0),
            PredefUnit::Power => mechanical(-3, 2, 1, 0),
            PredefUnit::Energy => mechanical(-2, 2, 1, 0),
            PredefUnit::Frequency => mechanical(-1, 0, 0, 0),
            PredefUnit::Velocity => mechanical(-1, 1, 0, 0),
            PredefUnit::AngularVelocity => mechanical(-1, 0, 0, 0),
            PredefUnit::MagneticFlux => mechanical(-2, 2, 1, -1),
            PredefUnit::MagneticFluxDensity => mechanical(-2, 0, 1, -1),
            PredefUnit::MagneticFieldStrength => mechanical(0, -1, 0, 1),
            PredefUnit::Inductance => mechanical(-2, 2, 1, -2),
            PredefUnit::ElectricConductance => mechanical(3, -2, -1, 2),
            PredefUnit::ElectricResistance => mechanical(-3, 2, 1, -2),
            PredefUnit::ElectricConductivity => mechanical(3, -3, -1, 2),
            PredefUnit::ElectricResistivity => mechanical(-3, 3, 1, -2),
        }
    }
}

/// A unit of the four exponents that the named units use.
fn mechanical_unit(second: i32, meter: i32, kilogram: i32, ampere: i32) -> (r: Unit)
    ensures
        r == mechanical(second as int, meter as int, kilogram as int, ampere as int),
{
    Unit { second, meter, kilogram, ampere, kelvin: 0, mol: 0, candela: 0 }
}

impl From<PredefUnit> for Unit {
    /// The unit that a name stands for.
    fn from(value: PredefUnit) -> (r: Unit) {
        match value {
            PredefUnit::Time => mechanical_unit(1, 0, 0, 0),
            PredefUnit::Length => mechanical_unit(0, 1, 0, 0),
            PredefUnit::Mass => mechanical_unit(0, 0, 1, 0),
            PredefUnit::ElectricCurrent => mechanical_unit(0, 0, 0, 1),
            PredefUnit::Temperature => Unit {
                second: 0,
                meter: 0,
                kilogram: 0,
                ampere: 0,
                kelvin: 1,
                mol: 0,
                candela: 0,
            },
            PredefUnit::AmountOfSubstance => Unit {
                second: 0,
                meter: 0,
                kilogram: 0,
                ampere: 0,
                kelvin: 0,
                mol: 1,
                candela: 0,
            },
            PredefUnit::LuminousIntensity => Unit {
                second: 0,
                meter: 0,
                kilogram: 0,
                ampere: 0,
                kelvin: 0,
                mol: 0,
                candela: 1,
            },
            PredefUnit::Area => mechanical_unit(0, 2, 0, 0),
            PredefUnit::Volume => mechanical_unit(0, 3, 0, 0),
            PredefUnit::ElectricVoltage => mechanical_unit(-3, 2, 1, -1),
            PredefUnit::Force => mechanical_unit(-2, 1, 1, 0),
            PredefUnit::Torque => mechanical_unit(-2, 2, 1, 0),
            PredefUnit::Power => mechanical_unit(-3, 2, 1, 0),
            PredefUnit::Energy => mechanical_unit(-2, 2, 1, 0),
            PredefUnit::Frequency => mechanical_unit(-1, 0, 0, 0),
            PredefUnit::Velocity => mechanical_unit(-1, 1, 0, 0),
            PredefUnit::AngularVelocity => mechanical_unit(-1, 0, 0, 0),
            PredefUnit::MagneticFlux => mechanical_unit(-2, 2, 1, -1),
            PredefUnit::MagneticFluxDensity => mechanical_unit(-2, 0, 1, -1),
            PredefUnit::MagneticFieldStrength => mechanical_unit(0, -1, 0, 1),
            PredefUnit::Inductance => mechanical_unit(-2, 2, 1, -2),
            PredefUnit::ElectricConductance => mechanical_unit(3, -2, -1, 2),
            PredefUnit::ElectricResistance => mechanical_unit(-3, 2, 1, -2),
            PredefUnit::ElectricConductivity => mechanical_unit(3, -3, -1, 2),
            PredefUnit::ElectricResistivity => mechanical_unit(-3, 3, 1, -2),
        }
    }
}

impl FromSpecImpl<PredefUnit> for Unit {
    open spec fn obeys_from_spec() -> bool {
        true
    }

    open spec fn from_spec(value: PredefUnit) -> Unit {
        value.unit()
    }
}

/// The named units agree with the definitions of the quantities they
/// measure: an area is a length squared, a force is a mass times a length
/// over a time squared, a voltage is a power over a current, and so on down
/// to resistivity and conductivity.
pub proof fn lemma_named_units_are_consistent()
    ensures
        PredefUnit::Area.unit()@ == PredefUnit::Length.unit()@.raised(2),
        PredefUnit::Volume.unit()@ == PredefUnit::Length.unit()@.raised(3),
        PredefUnit::Frequency.unit()@ == PredefUnit::Time.unit()@.raised(-1),
        PredefUnit::AngularVelocity.unit()@ == PredefUnit::Frequency.unit()@,
        PredefUnit::Velocity.unit()@ == PredefUnit::Length.unit()@.over(PredefUnit::Time.unit()@),
        PredefUnit::Force.unit()@ == PredefUnit::Mass.unit()@.times(
            PredefUnit::Velocity.unit()@,
        ).over(PredefUnit::Time.unit()@),
        PredefUnit::Energy.unit()@ == PredefUnit::Force.unit()@.times(PredefUnit::Length.unit()@),
        PredefUnit::Torque.unit()@ == PredefUnit::Energy.unit()@,
        PredefUnit::Power.unit()@ == PredefUnit::Energy.unit()@.over(PredefUnit::Time.unit()@),
        PredefUnit::ElectricVoltage.unit()@ == PredefUnit::Power.unit()@.over(
            PredefUnit::ElectricCurrent.unit()@,
        ),
        PredefUnit::ElectricResistance.unit()@ == PredefUnit::ElectricVoltage.unit()@.over(
            PredefUnit::ElectricCurrent.unit()@,
        ),
        PredefUnit::ElectricConductance.unit()@ == PredefUnit::ElectricResistance.unit()@.raised(
            -1,
        ),
        PredefUnit::ElectricResistivity.unit()@ == PredefUnit::ElectricResistance.unit()@.times(
            PredefUnit::Length.unit()@,
        ),
        PredefUnit::ElectricConductivity.unit()@ == PredefUnit::ElectricResistivity.unit()@.raised(
            -1,
        ),
        PredefUnit::MagneticFlux.unit()@ == PredefUnit::ElectricVoltage.unit()@.times(
            PredefUnit::Time.unit()@,
        ),
        PredefUnit::MagneticFluxDensity.unit()@ == PredefUnit::MagneticFlux.unit()@.over(
            PredefUnit::Area.unit()@,
        ),
        PredefUnit::MagneticFieldStrength.unit()@ == PredefUnit::ElectricCurrent.unit()@.over(
            PredefUnit::Length.unit()@,
        ),
        PredefUnit::Inductance.unit()@ == PredefUnit::MagneticFlux.unit()@.over(
            PredefUnit::ElectricCurrent.unit()@,
        ),
{
}

/// A type that stands for a physical quantity and so has a unit: the
/// bridge from quantities whose unit is part of their type. A type that
/// says nothing else is dimensionless.
pub trait UnitFromType {
    /// The unit of the quantities of this type.
    fn unit_from_type() -> (r: Unit)
        ensures
            Self::unit_unsaid() ==> r@ == Dimension::none(),
    {
        Unit::default()
    }

    /// Whether the type leaves its unit unsaid: then its quantities are
    /// dimensionless. A type does so unless it says here that it gives a
    /// unit of its own.
    open spec fn unit_unsaid() -> bool {
        true
    }
}

} // verus!
