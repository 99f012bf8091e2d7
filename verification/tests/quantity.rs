use dyn_quantity::{
    parse, to_vec, to_vec_checked, ConversionError, DynQuantity, Literal, Magnitude,
    NotConvertibleFromComplexF64, ParseErrorReason, RootError, Unit, UnitExponents,
    UnitsNotEqual,
};

fn number(value: f64) -> Magnitude {
    Magnitude::Number { re: value.to_bits(), im: 0 }
}

fn ampere(value: f64) -> DynQuantity {
    DynQuantity::new(number(value), UnitExponents::electrical_current())
}

fn volt(value: f64) -> DynQuantity {
    DynQuantity::new(number(value), UnitExponents::electrical_voltage())
}

#[test]
fn sums_need_equal_units() {
    let sum = ampere(1.0).try_add(&ampere(2.0)).unwrap();
    assert_eq!(sum.unit, UnitExponents::electrical_current());
    assert_eq!(sum.value, Magnitude::Sum(Box::new(number(1.0)), Box::new(number(2.0))));
    assert_eq!(
        volt(-5.0).try_add(&ampere(1.0)),
        Err(UnitsNotEqual(UnitExponents::electrical_voltage(), UnitExponents::electrical_current()))
    );
    let difference = ampere(1.0).try_sub(&ampere(2.0)).unwrap();
    assert_eq!(
        difference.value,
        Magnitude::Difference(Box::new(number(1.0)), Box::new(number(2.0)))
    );
    assert!(volt(-5.0).try_sub(&ampere(1.0)).is_err());
}

#[test]
fn failed_sums_change_nothing() {
    let mut current = ampere(1.0);
    current.try_add_assign(&ampere(2.0)).unwrap();
    assert_eq!(current, ampere(1.0).try_add(&ampere(2.0)).unwrap());
    let mut voltage = volt(-5.0);
    let copy = voltage.clone();
    assert!(voltage.try_add_assign(&current).is_err());
    assert_eq!(voltage, copy);
    assert!(voltage.try_sub_assign(&current).is_err());
    assert_eq!(voltage, copy);
    voltage.try_sub_assign(&volt(1.0)).unwrap();
    assert_eq!(voltage, volt(-5.0).try_sub(&volt(1.0)).unwrap());
}

#[test]
fn products_combine_units() {
    let power = volt(2.0) * ampere(3.0);
    assert_eq!(power.unit, UnitExponents::power());
    assert_eq!(power.value, Magnitude::Times(Box::new(number(2.0)), Box::new(number(3.0))));
    let resistance = volt(2.0) / ampere(3.0);
    assert_eq!(resistance.unit, UnitExponents::electrical_resistance());
    assert_eq!(resistance.value, Magnitude::Over(Box::new(number(2.0)), Box::new(number(3.0))));
    assert_eq!(volt(2.0).checked_mul(ampere(3.0)), Some(volt(2.0) * ampere(3.0)));
    assert_eq!(volt(2.0).checked_div(ampere(3.0)), Some(volt(2.0) / ampere(3.0)));
    let large = DynQuantity::new(number(1.0), Unit::from([i32::MAX, 0, 0, 0, 0, 0, 0]));
    assert_eq!(large.clone().checked_mul(large.clone()), None);
    assert_eq!(large.checked_powi(2), None);
}

#[test]
fn powers_and_roots() {
    let square = ampere(2.0).powi(2);
    assert_eq!(square.unit.ampere, 2);
    assert_eq!(square.value, Magnitude::Power(Box::new(number(2.0)), 2));
    assert_eq!(ampere(2.0).checked_powi(2), Some(square.clone()));
    let root = square.clone().try_nthroot(2).unwrap();
    assert_eq!(root.unit, UnitExponents::electrical_current());
    assert_eq!(root.value, Magnitude::Root(Box::new(square.value.clone()), 2));
    assert_eq!(square.clone().try_nthroot(3), Err(RootError { n: 3, unit: square.unit }));
}

#[test]
fn values_of_slices() {
    let quantities = [ampere(1.0), ampere(2.0), ampere(3.0)];
    assert_eq!(to_vec(&quantities), vec![number(1.0), number(2.0), number(3.0)]);
    assert_eq!(to_vec_checked(&quantities), Ok(vec![number(1.0), number(2.0), number(3.0)]));
    let mixed = [ampere(1.0), volt(2.0), DynQuantity::new(number(3.0), Unit::default())];
    assert_eq!(to_vec(&mixed), vec![number(1.0), number(2.0), number(3.0)]);
    assert_eq!(
        to_vec_checked(&mixed),
        Err(ConversionError::UnitMismatch {
            expected: UnitExponents::electrical_current(),
            found: UnitExponents::electrical_voltage(),
        })
    );
    assert_eq!(to_vec(&[]), Vec::<Magnitude>::new());
    assert_eq!(to_vec_checked(&[]), Ok(Vec::new()));
}

#[test]
fn only_a_dimensionless_quantity_is_a_number() {
    let pure = DynQuantity::new(number(4.0), Unit::default());
    assert_eq!(pure.try_into_value(), Ok(number(4.0)));
    assert_eq!(
        ampere(4.0).try_into_value(),
        Err(ConversionError::UnitMismatch {
            expected: Unit::default(),
            found: UnitExponents::electrical_current(),
        })
    );
}

#[test]
fn parsed_quantities_take_part_in_arithmetic() {
    let first = parse("1 A").unwrap();
    let second = parse("1 V*A / V").unwrap();
    let sum = first.try_add(&second).unwrap();
    assert_eq!(sum.unit.ampere, 1);
    assert!(parse("-5 V").unwrap().try_add(&first).is_err());
    assert_eq!(
        first.value,
        Magnitude::Scaled(
            Box::new(Magnitude::Real(Literal { start: 0, end: 1 })),
            dyn_quantity::Factor::Ten(0)
        )
    );
}

#[test]
fn a_failed_conversion_says_what_it_was_given() {
    let error = NotConvertibleFromComplexF64 { source: number(1.0), target_type: "real" };
    assert_eq!(error.to_text("1+2i"), "could not convert from 1+2i into target type real");
    let reason = ParseErrorReason::NotConvertibleFromComplexF64(error.clone());
    assert_eq!(reason.to_text("1+2i"), error.to_text("1+2i"));
    assert_eq!(
        ConversionError::NotConvertibleFromComplexF64(error.clone()).to_text("1+2i"),
        error.to_text("1+2i")
    );
    assert_eq!(
        DynQuantity::new(number(2.0), UnitExponents::area()).to_text("2", false),
        "2 m^2"
    );
    assert_eq!(
        DynQuantity::new(number(2.0), UnitExponents::electrical_current()).to_text("1+2i", true),
        "(1+2i) A"
    );
}
