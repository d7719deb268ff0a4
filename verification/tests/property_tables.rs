use tuas_boussinesq_solver::boussinesq_thermophysical_properties::material::{
    range_check, Material,
};
use tuas_boussinesq_solver::boussinesq_thermophysical_properties::property_curve::{
    sample_temperatures, PropertyCurve, KNOT_LIMIT,
};
use tuas_boussinesq_solver::tuas_lib_error::TuasLibError;

const RANGE_ERROR: TuasLibError = TuasLibError::ThermophysicalPropertyTemperatureRangeError;

#[test]
fn curve_interpolates_between_knots() {
    let curve = PropertyCurve::new(vec![0, 100, 200], vec![20, 24, 28]).unwrap();
    assert_eq!(curve.value_at(0), Ok(20));
    assert_eq!(curve.value_at(50), Ok(22));
    assert_eq!(curve.value_at(100), Ok(24));
    assert_eq!(curve.value_at(175), Ok(27));
    assert_eq!(curve.value_at(200), Ok(28));
}

#[test]
fn curve_rounds_towards_minus_infinity_on_falling_and_rising_segments() {
    let curve = PropertyCurve::new(vec![0, 3, 6], vec![10, 0, -10]).unwrap();
    // 10 - 10/3 = 6.67, 10 - 20/3 = 3.33
    assert_eq!(curve.value_at(1), Ok(6));
    assert_eq!(curve.value_at(2), Ok(3));
    // -10/3 = -3.33, -20/3 = -6.67
    assert_eq!(curve.value_at(4), Ok(-4));
    assert_eq!(curve.value_at(5), Ok(-7));
}

#[test]
fn curve_rejects_temperatures_outside_its_range() {
    let curve = PropertyCurve::new(vec![0, 100, 200], vec![20, 24, 28]).unwrap();
    assert_eq!(curve.value_at(-1), Err(RANGE_ERROR));
    assert_eq!(curve.value_at(201), Err(RANGE_ERROR));
    assert_eq!(curve.value_at(i64::MIN), Err(RANGE_ERROR));
    assert_eq!(curve.value_at(i64::MAX), Err(RANGE_ERROR));
    assert_eq!(curve.min_temperature(), 0);
    assert_eq!(curve.max_temperature(), 200);
}

#[test]
fn curve_needs_well_formed_knots() {
    assert!(PropertyCurve::new(vec![0, 100], vec![1, 2]).is_some());
    assert!(PropertyCurve::new(vec![0], vec![1]).is_none());
    assert!(PropertyCurve::new(vec![], vec![]).is_none());
    assert!(PropertyCurve::new(vec![0, 100], vec![1]).is_none());
    assert!(PropertyCurve::new(vec![0, 0], vec![1, 2]).is_none());
    assert!(PropertyCurve::new(vec![100, 0], vec![1, 2]).is_none());
    assert!(PropertyCurve::new(vec![0, 50, 40], vec![1, 2, 3]).is_none());
    assert!(PropertyCurve::new(vec![0, KNOT_LIMIT], vec![1, 2]).is_some());
    assert!(PropertyCurve::new(vec![0, KNOT_LIMIT + 1], vec![1, 2]).is_none());
    assert!(PropertyCurve::new(vec![0, 1], vec![-KNOT_LIMIT - 1, 2]).is_none());
}

#[test]
fn curve_inverts_strictly_increasing_values() {
    let curve = PropertyCurve::new(vec![0, 100, 200], vec![0, 1000, 3000]).unwrap();
    assert!(curve.is_invertible());
    assert_eq!(curve.temperature_at(0), Ok(0));
    assert_eq!(curve.temperature_at(500), Ok(50));
    assert_eq!(curve.temperature_at(1000), Ok(100));
    assert_eq!(curve.temperature_at(2000), Ok(150));
    assert_eq!(curve.temperature_at(2019), Ok(150));
    assert_eq!(curve.temperature_at(2020), Ok(151));
    assert_eq!(curve.temperature_at(3000), Ok(200));
    assert_eq!(curve.temperature_at(-1), Err(RANGE_ERROR));
    assert_eq!(curve.temperature_at(3001), Err(RANGE_ERROR));
    let flat = PropertyCurve::constant(0, 100, 7).unwrap();
    assert!(!flat.is_invertible());
    assert!(flat.is_positive());
    assert_eq!(flat.value_at(33), Ok(7));
    let copy = curve.duplicate();
    assert_eq!(copy.value_at(150), Ok(2000));
}

fn oil() -> Material {
    // 250 K to 400 K, 1000 kg/m3, 2000 J/(kg K), 0.5 W/(m K), 1 mPa s
    Material::with_constant_properties(
        250_000,
        400_000,
        1_000_000,
        2_000_000,
        500_000,
        Some(1_000_000),
    )
    .unwrap()
}

fn steel() -> Material {
    // 250 K to 1000 K, 8000 kg/m3, 500 J/(kg K), 16 W/(m K)
    Material::with_constant_properties(250_000, 1_000_000, 8_000_000, 500_000, 16_000_000, None)
        .unwrap()
}

#[test]
fn material_gives_its_properties_within_its_range() {
    let oil = oil();
    assert!(oil.is_liquid());
    assert_eq!(oil.min_temperature(), 250_000);
    assert_eq!(oil.max_temperature(), 400_000);
    assert_eq!(oil.try_get_rho(300_000), Ok(1_000_000));
    assert_eq!(oil.try_get_cp(300_000), Ok(2_000_000));
    assert_eq!(oil.try_get_thermal_conductivity(300_000), Ok(500_000));
    assert_eq!(oil.try_get_dynamic_viscosity(300_000), Ok(1_000_000));
    // Pr = cp mu / k = 2000 * 0.001 / 0.5 = 4
    assert_eq!(oil.try_get_prandtl_liquid(300_000, 101_325), Ok(4_000_000));
    // h = 2000 J/(kg K) * 26.85 K
    assert_eq!(oil.try_get_h(300_000), Ok(53_700_000));
    assert_eq!(oil.try_get_h(273_150), Ok(0));
    assert_eq!(oil.try_get_h(250_000), Ok(-46_300_000));
    assert_eq!(oil.try_get_temperature_from_h(53_700_000), Ok(300_000));
    assert_eq!(oil.try_get_temperature_from_h(53_701_999), Ok(300_000));
    assert_eq!(oil.try_get_temperature_from_h(53_702_000), Ok(300_001));
    let copy = oil.duplicate();
    assert_eq!(copy.try_get_h(300_000), Ok(53_700_000));
}

#[test]
fn material_property_outside_its_range_is_a_range_error() {
    let oil = oil();
    for temperature in [249_999, 400_001, 0, -5, i64::MAX] {
        assert_eq!(oil.try_get_rho(temperature), Err(RANGE_ERROR));
        assert_eq!(oil.try_get_cp(temperature), Err(RANGE_ERROR));
        assert_eq!(oil.try_get_thermal_conductivity(temperature), Err(RANGE_ERROR));
        assert_eq!(oil.try_get_dynamic_viscosity(temperature), Err(RANGE_ERROR));
        assert_eq!(oil.try_get_prandtl_liquid(temperature, 101_325), Err(RANGE_ERROR));
        assert_eq!(oil.try_get_h(temperature), Err(RANGE_ERROR));
    }
    for temperature in [250_000, 400_000] {
        assert!(oil.try_get_rho(temperature).is_ok());
        assert!(oil.try_get_h(temperature).is_ok());
    }
    assert_eq!(oil.try_get_temperature_from_h(-46_300_001), Err(RANGE_ERROR));
    assert_eq!(oil.try_get_temperature_from_h(253_700_001), Err(RANGE_ERROR));
}

#[test]
fn solid_has_no_viscosity() {
    let steel = steel();
    assert!(!steel.is_liquid());
    assert_eq!(
        steel.try_get_dynamic_viscosity(300_000),
        Err(TuasLibError::TypeConversionError)
    );
    assert_eq!(
        steel.try_get_prandtl_liquid(300_000, 101_325),
        Err(TuasLibError::TypeConversionError)
    );
    assert_eq!(steel.try_get_thermal_conductivity(300_000), Ok(16_000_000));
}

#[test]
fn material_needs_consistent_curves() {
    let on = |lower: i64, upper: i64, value: i64| PropertyCurve::constant(lower, upper, value).unwrap();
    let enthalpy = || PropertyCurve::new(vec![0, 100], vec![0, 1000]).unwrap();
    assert!(Material::new(on(0, 100, 1), on(0, 100, 1), on(0, 100, 1), enthalpy(), None).is_some());
    // another range
    assert!(Material::new(on(0, 99, 1), on(0, 100, 1), on(0, 100, 1), enthalpy(), None).is_none());
    assert!(Material::new(on(0, 100, 1), on(1, 100, 1), on(0, 100, 1), enthalpy(), None).is_none());
    assert!(
        Material::new(on(0, 100, 1), on(0, 100, 1), on(0, 100, 1), enthalpy(), Some(on(0, 50, 1)))
            .is_none()
    );
    // no conductivity
    assert!(Material::new(on(0, 100, 1), on(0, 100, 1), on(0, 100, 0), enthalpy(), None).is_none());
    // enthalpy that does not increase
    assert!(
        Material::new(on(0, 100, 1), on(0, 100, 1), on(0, 100, 1), on(0, 100, 5), None).is_none()
    );
    // no heat capacity, no range
    assert!(Material::with_constant_properties(0, 100, 1, 0, 1, None).is_none());
    assert!(Material::with_constant_properties(100, 100, 1, 1, 1, None).is_none());
}

#[test]
fn range_check_accepts_the_limits_and_rejects_beyond() {
    assert_eq!(range_check(300_000, 400_000, 250_000), Ok(true));
    assert_eq!(range_check(250_000, 400_000, 250_000), Ok(true));
    assert_eq!(range_check(400_000, 400_000, 250_000), Ok(true));
    assert_eq!(range_check(249_999, 400_000, 250_000), Err(RANGE_ERROR));
    assert_eq!(range_check(400_001, 400_000, 250_000), Err(RANGE_ERROR));
}

#[test]
fn errors_describe_themselves() {
    assert_eq!(
        TuasLibError::TypeConversionError.description(),
        "entity or material is of the wrong kind"
    );
    assert_eq!(
        RANGE_ERROR.description(),
        "temperature outside the validated range of the property"
    );
    assert_eq!(
        TuasLibError::DimensionMismatch.description(),
        "vector length differs from the number of nodes"
    );
    assert_eq!(
        TuasLibError::ValueNotRepresentable.description(),
        "value is not representable in fixed point"
    );
}

#[test]
fn sampled_temperatures_run_evenly_from_one_limit_to_the_other() {
    assert_eq!(sample_temperatures(0, 100, 5), Ok(vec![0, 25, 50, 75, 100]));
    assert_eq!(sample_temperatures(250_000, 400_000, 2), Ok(vec![250_000, 400_000]));
    assert_eq!(sample_temperatures(0, 10, 4), Ok(vec![0, 3, 6, 10]));
    assert_eq!(sample_temperatures(-5, 5, 11), Ok((-5..=5).collect::<Vec<i64>>()));
    assert_eq!(sample_temperatures(0, 100, 1), Err(TuasLibError::DimensionMismatch));
    assert_eq!(sample_temperatures(0, 100, 0), Err(TuasLibError::DimensionMismatch));
    assert_eq!(sample_temperatures(100, 100, 2), Err(TuasLibError::DimensionMismatch));
    assert_eq!(sample_temperatures(100, 0, 2), Err(TuasLibError::DimensionMismatch));
    assert_eq!(sample_temperatures(0, 3, 5), Err(TuasLibError::DimensionMismatch));
    assert_eq!(
        sample_temperatures(0, KNOT_LIMIT + 1, 5),
        Err(TuasLibError::ValueNotRepresentable)
    );
    let samples = sample_temperatures(-KNOT_LIMIT, KNOT_LIMIT, 1000).unwrap();
    assert_eq!(samples.len(), 1000);
    assert_eq!(samples[0], -KNOT_LIMIT);
    assert_eq!(samples[999], KNOT_LIMIT);
    assert!(samples.windows(2).all(|pair| pair[0] < pair[1]));
    assert!(PropertyCurve::new(samples.clone(), samples).is_some());
}

#[test]
fn temperature_of_an_enthalpy_is_the_highest_that_does_not_exceed_it() {
    let curve = PropertyCurve::new(vec![0, 3], vec![0, 10]).unwrap();
    assert!(curve.is_resolving());
    // the values at 0, 1, 2, 3 are 0, 3, 6, 10
    for (value, temperature) in
        [(0, 0), (1, 0), (2, 0), (3, 1), (5, 1), (6, 2), (9, 2), (10, 3)]
    {
        assert_eq!(curve.temperature_at(value), Ok(temperature));
    }
    for temperature in 0..=3 {
        let value = curve.value_at(temperature).unwrap();
        assert_eq!(curve.temperature_at(value), Ok(temperature));
    }
    assert!(!PropertyCurve::new(vec![0, 10], vec![0, 3]).unwrap().is_resolving());
}
