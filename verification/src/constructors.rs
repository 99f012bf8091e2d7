//! Named constructors for the units of common physical quantities.

use vstd::prelude::*;

use crate::unit::{PredefUnit, Unit, UnitExponents};

verus! {

impl UnitExponents {
    /// The unit of time.
    pub fn time() -> (r: Unit)
        ensures
            r == PredefUnit::Time.unit(),
    {
        Unit::from(PredefUnit::Time)
    }

    /// The unit of length.
    pub fn length() -> (r: Unit)
        ensures
            r == PredefUnit::Length.unit(),
    {
        Unit::from(PredefUnit::Length)
    }

    /// The unit of mass.
    pub fn mass() -> (r: Unit)
        ensures
            r == PredefUnit::Mass.unit(),
    {
        Unit::from(PredefUnit::Mass)
    }

    /// The unit of electrical current.
    pub fn electrical_current() -> (r: Unit)
        ensures
            r == PredefUnit::ElectricCurrent.unit(),
    {
        Unit::from(PredefUnit::ElectricCurrent)
    }

    /// The unit of temperature.
    pub fn temperature() -> (r: Unit)
        ensures
            r == PredefUnit::Temperature.unit(),
    {
        Unit::from(PredefUnit::Temperature)
    }

    /// The unit of amount of substance.
    pub fn amount_of_substance() -> (r: Unit)
        ensures
            r == PredefUnit::AmountOfSubstance.unit(),
    {
        Unit::from(PredefUnit::AmountOfSubstance)
    }

    /// The unit of luminous intensity.
    pub fn luminous_intensity() -> (r: Unit)
        ensures
            r == PredefUnit::LuminousIntensity.unit(),
    {
        Unit::from(PredefUnit::LuminousIntensity)
    }

    /// The unit of surface area.
    pub fn area() -> (r: Unit)
        ensures
            r == PredefUnit::Area.unit(),
    {
        Unit::from(PredefUnit::Area)
    }

    /// The unit of volume.
    pub fn volume() -> (r: Unit)
        ensures
            r == PredefUnit::Volume.unit(),
    {
        Unit::from(PredefUnit::Volume)
    }

    /// The unit of electrical voltage.
    pub fn electrical_voltage() -> (r: Unit)
        ensures
            r == PredefUnit::ElectricVoltage.unit(),
    {
        Unit::from(PredefUnit::ElectricVoltage)
    }

    /// The unit of force.
    pub fn force() -> (r: Unit)
        ensures
            r == PredefUnit::Force.unit(),
    {
        Unit::from(PredefUnit::Force)
    }

    /// The unit of torque.
    pub fn torque() -> (r: Unit)
        ensures
            r == PredefUnit::Torque.unit(),
    {
        Unit::from(PredefUnit::Torque)
    }

    /// The unit of power.
    pub fn power() -> (r: Unit)
        ensures
            r == PredefUnit::Power.unit(),
    {
        Unit::from(PredefUnit::Power)
    }

    /// The unit of energy.
    pub fn energy() -> (r: Unit)
        ensures
            r == PredefUnit::Energy.unit(),
    {
        Unit::from(PredefUnit::Energy)
    }

    /// The unit of frequency.
    pub fn frequency() -> (r: Unit)
        ensures
            r == PredefUnit::Frequency.unit(),
    {
        Unit::from(PredefUnit::Frequency)
    }

    /// The unit of linear velocity.
    pub fn velocity() -> (r: Unit)
        ensures
            r == PredefUnit::Velocity.unit(),
    {
        Unit::from(PredefUnit::Velocity)
    }

    /// The unit of angular velocity.
    pub fn angular_velocity() -> (r: Unit)
        ensures
            r == PredefUnit::AngularVelocity.unit(),
    {
        Unit::from(PredefUnit::AngularVelocity)
    }

    /// The unit of magnetic flux.
    pub fn magnetic_flux() -> (r: Unit)
        ensures
            r == PredefUnit::MagneticFlux.unit(),
    {
        Unit::from(PredefUnit::MagneticFlux)
    }

    /// The unit of magnetic flux density.
    pub fn magnetic_flux_density() -> (r: Unit)
        ensures
            r == PredefUnit::MagneticFluxDensity.unit(),
    {
        Unit::from(PredefUnit::MagneticFluxDensity)
    }

    /// The unit of inductance.
    pub fn inductance() -> (r: Unit)
        ensures
            r == PredefUnit::Inductance.unit(),
    {
        Unit::from(PredefUnit::Inductance)
    }

    /// The unit of electrical conductance.
    pub fn electrical_conductance() -> (r: Unit)
        ensures
            r == PredefUnit::ElectricConductance.unit(),
    {
        Unit::from(PredefUnit::ElectricConductance)
    }

    /// The unit of electrical resistance.
    pub fn electrical_resistance() -> (r: Unit)
        ensures
            r == PredefUnit::ElectricResistance.unit(),
    {
        Unit::from(PredefUnit::ElectricResistance)
    }

    /// The unit of electrical conductivity.
    pub fn electrical_conductivity() -> (r: Unit)
        ensures
            r == PredefUnit::ElectricConductivity.unit(),
    {
        Unit::from(PredefUnit::ElectricConductivity)
    }

    /// The unit of electrical resistivity.
    pub fn electrical_resistivity() -> (r: Unit)
        ensures
            r == PredefUnit::ElectricResistivity.unit(),
    {
        Unit::from(PredefUnit::ElectricResistivity)
    }
}

} // verus!
