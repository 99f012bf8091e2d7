//! Quantities: a value together with its unit.

use vstd::prelude::*;
use vstd::std_specs::ops::{DivSpecImpl, MulSpecImpl};

use crate::error::{ConversionError, RootError, UnitsNotEqual};
use crate::magnitude::Magnitude;
use crate::unit::{Dimension, Unit};

verus! {

/// A physical quantity: a numerical value and the unit it is measured in.
/// The unit is data, not a type, so it can be the result of parsing a text.
#[derive(Debug, PartialEq, Eq)]
pub struct DynQuantity {
    /// The numerical value.
    pub value: Magnitude,
    /// The unit of measurement, in SI base units.
    pub unit: Unit,
}

impl Clone for DynQuantity {
    fn clone(&self) -> (r: DynQuantity)
        ensures
            r == *self,
    {
        DynQuantity { value: self.value.clone(), unit: self.unit }
    }
}

impl DynQuantity {
    /// A quantity of the given value and unit.
    pub fn new(value: Magnitude, unit: Unit) -> (r: DynQuantity)
        ensures
            r == (DynQuantity { value, unit }),
    {
        DynQuantity { value, unit }
    }

    /// The sum of two quantities, which exists where their units are equal.
    pub open spec fn spec_try_add(self, other: DynQuantity) -> Result<DynQuantity, UnitsNotEqual> {
        if self.unit == other.unit {
            Ok(
                DynQuantity {
                    value: Magnitude::Sum(Box::new(self.value), Box::new(other.value)),
                    unit: self.unit,
                },
            )
        } else {
            Err(UnitsNotEqual(self.unit, other.unit))
        }
    }

    /// The difference of two quantities, which exists where their units are
    /// equal.
    pub open spec fn spec_try_sub(self, other: DynQuantity) -> Result<DynQuantity, UnitsNotEqual> {
        if self.unit == other.unit {
            Ok(
                DynQuantity {
                    value: Magnitude::Difference(Box::new(self.value), Box::new(other.value)),
                    unit: self.unit,
                },
            )
        } else {
            Err(UnitsNotEqual(self.unit, other.unit))
        }
    }

    /// The product of two quantities, where its unit can be stored.
    pub open spec fn spec_checked_mul(self, rhs: DynQuantity) -> Option<DynQuantity> {
        match self.unit.spec_checked_mul(rhs.unit) {
            Some(unit) => Some(
                DynQuantity {
                    value: Magnitude::Times(Box::new(self.value), Box::new(rhs.value)),
                    unit,
                },
            ),
            None => None,
        }
    }

    /// The quotient of two quantities, where its unit can be stored.
    pub open spec fn spec_checked_div(self, rhs: DynQuantity) -> Option<DynQuantity> {
        match self.unit.spec_checked_div(rhs.unit) {
            Some(unit) => Some(
                DynQuantity {
                    value: Magnitude::Over(Box::new(self.value), Box::new(rhs.value)),
                    unit,
                },
            ),
            None => None,
        }
    }

    /// An integer power of a quantity, where its unit can be stored.
    pub open spec fn spec_checked_powi(self, n: i32) -> Option<DynQuantity> {
        match self.unit.spec_checked_powi(n) {
            Some(unit) => Some(DynQuantity { value: Magnitude::Power(Box::new(self.value), n), unit }),
            None => None,
        }
    }

    /// Adds two quantities. This succeeds if and only if their units are
    /// equal; the error holds both units.
    pub fn try_add(&self, other: &DynQuantity) -> (r: Result<DynQuantity, UnitsNotEqual>)
        ensures
            r == self.spec_try_add(*other),
    {
        if self.unit == other.unit {
            Ok(
                DynQuantity {
                    value: Magnitude::Sum(
                        Box::new(self.value.clone()),
                        Box::new(other.value.clone()),
                    ),
                    unit: self.unit,
                },
            )
        } else {
            Err(UnitsNotEqual(self.unit, other.unit))
        }
    }

    /// Adds `other` to `self` in place. Where the units differ, `self` stays
    /// as it was.
    pub fn try_add_assign(&mut self, other: &DynQuantity) -> (r: Result<(), UnitsNotEqual>)
        ensures
            match old(self).spec_try_add(*other) {
                Ok(sum) => r == Ok::<(), UnitsNotEqual>(()) && *final(self) == sum,
                Err(e) => r == Err::<(), UnitsNotEqual>(e) && *final(self) == *old(self),
            },
    {
        if self.unit == other.unit {
            let mut value = Magnitude::One;
            core::mem::swap(&mut self.value, &mut value);
            self.value = Magnitude::Sum(Box::new(value), Box::new(other.value.clone()));
            Ok(())
        } else {
            Err(UnitsNotEqual(self.unit, other.unit))
        }
    }

    /// Subtracts `other` from `self`. This succeeds if and only if their
    /// units are equal; the error holds both units.
    pub fn try_sub(&self, other: &DynQuantity) -> (r: Result<DynQuantity, UnitsNotEqual>)
        ensures
            r == self.spec_try_sub(*other),
    {
        if self.unit == other.unit {
            Ok(
                DynQuantity {
                    value: Magnitude::Difference(
                        Box::new(self.value.clone()),
                        Box::new(other.value.clone()),
                    ),
                    unit: self.unit,
                },
            )
        } else {
            Err(UnitsNotEqual(self.unit, other.unit))
        }
    }

    /// Subtracts `other` from `self` in place. Where the units differ,
    /// `self` stays as it was.
    pub fn try_sub_assign(&mut self, other: &DynQuantity) -> (r: Result<(), UnitsNotEqual>)
        ensures
            match old(self).spec_try_sub(*other) {
                Ok(difference) => r == Ok::<(), UnitsNotEqual>(()) && *final(self) == difference,
                Err(e) => r == Err::<(), UnitsNotEqual>(e) && *final(self) == *old(self),
            },
    {
        if self.unit == other.unit {
            let mut value = Magnitude::One;
            core::mem::swap(&mut self.value, &mut value);
            self.value = Magnitude::Difference(Box::new(value), Box::new(other.value.clone()));
            Ok(())
        } else {
            Err(UnitsNotEqual(self.unit, other.unit))
        }
    }

    /// Raises the quantity to an integer power.
    pub fn powi(self, n: i32) -> (r: DynQuantity)
        requires
            self.unit@.raised(n as int).fits(),
        ensures
            Some(r) == self.spec_checked_powi(n),
            r.unit@ == self.unit@.raised(n as int),
    {
        let unit = self.unit.powi(n);
        DynQuantity { value: Magnitude::Power(Box::new(self.value), n), unit }
    }

    /// Raises the quantity to an integer power, or returns `None` where an
    /// exponent of the unit would leave the range of `i32`.
    pub fn checked_powi(self, n: i32) -> (r: Option<DynQuantity>)
        ensures
            r == self.spec_checked_powi(n),
    {
        match self.unit.checked_powi(n) {
            Some(unit) => Some(DynQuantity { value: Magnitude::Power(Box::new(self.value), n), unit }),
            None => None,
        }
    }

    /// Multiplies two quantities, or returns `None` where an exponent of the
    /// unit would leave the range of `i32`.
    pub fn checked_mul(self, rhs: DynQuantity) -> (r: Option<DynQuantity>)
        ensures
            r == self.spec_checked_mul(rhs),
    {
        match self.unit.checked_mul(rhs.unit) {
            Some(unit) => Some(
                DynQuantity {
                    value: Magnitude::Times(Box::new(self.value), Box::new(rhs.value)),
                    unit,
                },
            ),
            None => None,
        }
    }

    /// Divides two quantities, or returns `None` where an exponent of the
    /// unit would leave the range of `i32`.
    pub fn checked_div(self, rhs: DynQuantity) -> (r: Option<DynQuantity>)
        ensures
            r == self.spec_checked_div(rhs),
    {
        match self.unit.checked_div(rhs.unit) {
            Some(unit) => Some(
                DynQuantity {
                    value: Magnitude::Over(Box::new(self.value), Box::new(rhs.value)),
                    unit,
                },
            ),
            None => None,
        }
    }

    /// Calculates the `n`th root of the quantity. This fails exactly where
    /// the root of its unit does not exist.
    pub fn try_nthroot(self, n: i32) -> (r: Result<DynQuantity, RootError>)
        ensures
            match r {
                Ok(root) => self.unit.spec_nthroot(n) == Some(root.unit)
                    && root.unit@.raised(n as int) == self.unit@
                    && root.value == Magnitude::Root(Box::new(self.value), n),
                Err(e) => self.unit.spec_nthroot(n) is None && e == (RootError {
                    n,
                    unit: self.unit,
                }),
            },
    {
        match self.unit.try_nthroot(n) {
            Ok(unit) => Ok(DynQuantity { value: Magnitude::Root(Box::new(self.value), n), unit }),
            Err(e) => Err(e),
        }
    }

    /// The value of a dimensionless quantity. A quantity with a unit is
    /// refused: the error holds the dimensionless unit as the expected one
    /// and the quantity's unit as the one found.
    pub fn try_into_value(self) -> (r: Result<Magnitude, ConversionError>)
        ensures
            match r {
                Ok(value) => self.unit@ == Dimension::none() && value == self.value,
                Err(e) => self.unit@ != Dimension::none() && e == (ConversionError::UnitMismatch {
                    expected: Dimension::none().unit(),
                    found: self.unit,
                }),
            },
    {
        if self.unit.is_dimensionless() {
            Ok(self.value)
        } else {
            Err(ConversionError::UnitMismatch { expected: Unit::default(), found: self.unit })
        }
    }
}

impl core::ops::Mul for DynQuantity {
    type Output = DynQuantity;

    /// Multiplies two quantities: the values are multiplied and the units
    /// too.
    fn mul(self, rhs: DynQuantity) -> (r: DynQuantity) {
        let unit = self.unit * rhs.unit;
        DynQuantity { value: Magnitude::Times(Box::new(self.value), Box::new(rhs.value)), unit }
    }
}

impl MulSpecImpl for DynQuantity {
    open spec fn obeys_mul_spec() -> bool {
        true
    }

    open spec fn mul_req(self, rhs: DynQuantity) -> bool {
        self.unit@.times(rhs.unit@).fits()
    }

    open spec fn mul_spec(self, rhs: DynQuantity) -> DynQuantity {
        DynQuantity {
            value: Magnitude::Times(Box::new(self.value), Box::new(rhs.value)),
            unit: self.unit@.times(rhs.unit@).unit(),
        }
    }
}

impl core::ops::Div for DynQuantity {
    type Output = DynQuantity;

    /// Divides two quantities: the values are divided and the units too.
    fn div(self, rhs: DynQuantity) -> (r: DynQuantity) {
        let unit = self.unit / rhs.unit;
        DynQuantity { value: Magnitude::Over(Box::new(self.value), Box::new(rhs.value)), unit }
    }
}

impl DivSpecImpl for DynQuantity {
    open spec fn obeys_div_spec() -> bool {
        true
    }

    open spec fn div_req(self, rhs: DynQuantity) -> bool {
        self.unit@.over(rhs.unit@).fits()
    }

    open spec fn div_spec(self, rhs: DynQuantity) -> DynQuantity {
        DynQuantity {
            value: Magnitude::Over(Box::new(self.value), Box::new(rhs.value)),
            unit: self.unit@.over(rhs.unit@).unit(),
        }
    }
}

/// The values of the quantities of a slice: one per quantity, in order,
/// whatever their units.
pub open spec fn values_of(quantities: Seq<DynQuantity>) -> Seq<Magnitude> {
    quantities.map_values(|q: DynQuantity| q.value)
}

/// The first index at which a quantity's unit differs from that of the first
/// quantity, if there is one below `limit`.
pub open spec fn first_mismatch(quantities: Seq<DynQuantity>, limit: int) -> Option<int>
    decreases limit,
{
    if limit <= 0 {
        None
    } else {
        match first_mismatch(quantities, limit - 1) {
            Some(i) => Some(i),
            None => if quantities[limit - 1].unit != quantities[0].unit {
                Some(limit - 1)
            } else {
                None
            },
        }
    }
}

/// The values of all quantities of a slice, without a look at their units.
pub fn to_vec(quantity_slice: &[DynQuantity]) -> (r: Vec<Magnitude>)
    ensures
        r@ == values_of(quantity_slice@),
{
    let mut output: Vec<Magnitude> = Vec::with_capacity(quantity_slice.len());
    let mut i: usize = 0;
    while i < quantity_slice.len()
        invariant
            i <= quantity_slice.len(),
            output@ == values_of(quantity_slice@.subrange(0, i as int)),
        decreases quantity_slice.len() - i,
    {
        output.push(quantity_slice[i].value.clone());
        i += 1;
        assert(output@ =~= values_of(quantity_slice@.subrange(0, i as int)));
    }
    assert(quantity_slice@.subrange(0, i as int) =~= quantity_slice@);
    output
}

/// The values of all quantities of a slice, provided that they all have the
/// unit of the first one. Otherwise the error names that unit as expected
/// and, as found, the unit of the first quantity that differs.
pub fn to_vec_checked(quantity_slice: &[DynQuantity]) -> (r: Result<Vec<Magnitude>, ConversionError>)
    ensures
        match first_mismatch(quantity_slice@, quantity_slice@.len() as int) {
            None => r matches Ok(values) && values@ == values_of(quantity_slice@),
            Some(i) => r matches Err(e) && e == (ConversionError::UnitMismatch {
                expected: quantity_slice@[0].unit,
                found: quantity_slice@[i].unit,
            }),
        },
{
    let mut output: Vec<Magnitude> = Vec::with_capacity(quantity_slice.len());
    let mut i: usize = 0;
    while i < quantity_slice.len()
        invariant
            i <= quantity_slice.len(),
            first_mismatch(quantity_slice@, i as int) is None,
            output@ == values_of(quantity_slice@.subrange(0, i as int)),
        decreases quantity_slice.len() - i,
    {
        if quantity_slice[i].unit != quantity_slice[0].unit {
            proof {
                lemma_mismatch_stays(quantity_slice@, i as int + 1, quantity_slice@.len() as int);
            }
            return Err(
                ConversionError::UnitMismatch {
                    expected: quantity_slice[0].unit,
                    found: quantity_slice[i].unit,
                },
            );
        }
        output.push(quantity_slice[i].value.clone());
        i += 1;
        assert(output@ =~= values_of(quantity_slice@.subrange(0, i as int)));
    }
    assert(quantity_slice@.subrange(0, i as int) =~= quantity_slice@);
    Ok(output)
}

/// A mismatch found below one limit is the one found below every larger
/// limit.
proof fn lemma_mismatch_stays(quantities: Seq<DynQuantity>, limit: int, larger: int)
    requires
        0 <= limit <= larger,
        first_mismatch(quantities, limit) is Some,
    ensures
        first_mismatch(quantities, larger) == first_mismatch(quantities, limit),
    decreases larger - limit,
{
    if limit < larger {
        lemma_mismatch_stays(quantities, limit, larger - 1);
    }
}

} // verus!
