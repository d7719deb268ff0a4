use tuas_boussinesq_solver::boussinesq_thermophysical_properties::solid_database::pyrogel_hps::{
    ground_pyrogel_hps_dsc_data, ground_pyrogel_hps_dsc_range, max_temp_pyrogel_hps,
    min_temp_pyrogel_hps, pryogel_hps_specific_heat_capacity_low_temp_data,
    pryogel_hps_specific_heat_capacity_low_temp_range,
    pryogel_hps_specific_heat_capacity_rough_estimate, pyrogel_hps_density,
    pyrogel_hps_specific_enthalpy, pyrogel_hps_surf_roughness,
    pyrogel_hps_temperature_from_specific_enthalpy,
    pyrogel_thermal_conductivity_commercial_factsheet_curve,
    pyrogel_thermal_conductivity_commercial_factsheet_data,
    pyrogel_thermal_conductivity_commercial_factsheet_range,
};
use tuas_boussinesq_solver::tuas_lib_error::TuasLibError;

const RANGE_ERROR: TuasLibError = TuasLibError::ThermophysicalPropertyTemperatureRangeError;

#[test]
fn pyrogel_constants() {
    // 0.20 g/cc
    assert_eq!(pyrogel_hps_density(), Ok(200_000));
    // 1500 nm
    assert_eq!(pyrogel_hps_surf_roughness(), 1500);
    // 650 and 10 degrees Celsius
    assert_eq!(max_temp_pyrogel_hps(), 923_150);
    assert_eq!(min_temp_pyrogel_hps(), 283_150);
    // 1700 J/(kg K) from 10 to 650 degrees Celsius, a range error beyond
    assert_eq!(pryogel_hps_specific_heat_capacity_rough_estimate(283_150), Ok(1_700_000));
    assert_eq!(pryogel_hps_specific_heat_capacity_rough_estimate(600_000), Ok(1_700_000));
    assert_eq!(pryogel_hps_specific_heat_capacity_rough_estimate(923_150), Ok(1_700_000));
    assert_eq!(pryogel_hps_specific_heat_capacity_rough_estimate(283_149), Err(RANGE_ERROR));
    assert_eq!(pryogel_hps_specific_heat_capacity_rough_estimate(923_151), Err(RANGE_ERROR));
}

#[test]
fn pyrogel_enthalpy_is_linear_in_the_celsius_temperature() {
    // 1700 J/(kg K) * 10 K at 10 degrees Celsius
    assert_eq!(pyrogel_hps_specific_enthalpy(283_150), Ok(17_000_000));
    // 1700 J/(kg K) * 100 K
    assert_eq!(pyrogel_hps_specific_enthalpy(373_150), Ok(170_000_000));
    assert_eq!(pyrogel_hps_specific_enthalpy(373_151), Ok(170_001_700));
    // 1700 J/(kg K) * 650 K
    assert_eq!(pyrogel_hps_specific_enthalpy(923_150), Ok(1_105_000_000));
}

#[test]
fn pyrogel_enthalpy_outside_its_range_is_a_range_error() {
    // 700 degrees Celsius: no extrapolated 1190 kJ/kg
    assert_eq!(pyrogel_hps_specific_enthalpy(973_150), Err(RANGE_ERROR));
    assert_eq!(pyrogel_hps_specific_enthalpy(923_151), Err(RANGE_ERROR));
    assert_eq!(pyrogel_hps_specific_enthalpy(283_149), Err(RANGE_ERROR));
    assert_eq!(pyrogel_hps_specific_enthalpy(273_150), Err(RANGE_ERROR));
    assert_eq!(pyrogel_hps_specific_enthalpy(0), Err(RANGE_ERROR));
    assert_eq!(pyrogel_hps_specific_enthalpy(i64::MAX), Err(RANGE_ERROR));
    assert_eq!(pyrogel_hps_specific_enthalpy(i64::MIN), Err(RANGE_ERROR));
    assert_eq!(pyrogel_hps_temperature_from_specific_enthalpy(16_999_999), Err(RANGE_ERROR));
    assert_eq!(pyrogel_hps_temperature_from_specific_enthalpy(1_105_000_001), Err(RANGE_ERROR));
    assert_eq!(pyrogel_hps_temperature_from_specific_enthalpy(i64::MAX), Err(RANGE_ERROR));
    assert_eq!(pyrogel_hps_temperature_from_specific_enthalpy(i64::MIN), Err(RANGE_ERROR));
}

#[test]
fn pyrogel_temperature_inverts_the_enthalpy() {
    for temperature in [283_150, 283_151, 300_000, 600_000, 923_149] {
        let enthalpy = pyrogel_hps_specific_enthalpy(temperature).unwrap();
        assert_eq!(pyrogel_hps_temperature_from_specific_enthalpy(enthalpy), Ok(temperature));
        assert_eq!(
            pyrogel_hps_temperature_from_specific_enthalpy(enthalpy + 1_699),
            Ok(temperature)
        );
        assert_eq!(
            pyrogel_hps_temperature_from_specific_enthalpy(enthalpy + 1_700),
            Ok(temperature + 1)
        );
    }
    assert_eq!(pyrogel_hps_temperature_from_specific_enthalpy(1_105_000_000), Ok(923_150));
    assert_eq!(pyrogel_hps_temperature_from_specific_enthalpy(17_000_000), Ok(283_150));
}

#[test]
fn pyrogel_thermal_conductivity_data_sheet() {
    let (temperatures, values) = pyrogel_thermal_conductivity_commercial_factsheet_data();
    assert_eq!(
        temperatures,
        vec![273_150, 373_150, 473_150, 573_150, 673_150, 773_150, 873_150, 923_150]
    );
    assert_eq!(
        values,
        vec![20_000, 24_000, 28_000, 33_000, 40_000, 49_000, 62_000, 69_000]
    );
    assert_eq!(pyrogel_thermal_conductivity_commercial_factsheet_range(273_150), Ok(true));
    assert_eq!(pyrogel_thermal_conductivity_commercial_factsheet_range(923_150), Ok(true));
    assert_eq!(
        pyrogel_thermal_conductivity_commercial_factsheet_range(273_149),
        Err(RANGE_ERROR)
    );
    assert_eq!(
        pyrogel_thermal_conductivity_commercial_factsheet_range(923_151),
        Err(RANGE_ERROR)
    );
    let curve = pyrogel_thermal_conductivity_commercial_factsheet_curve();
    assert_eq!(curve.value_at(273_150), Ok(20_000));
    assert_eq!(curve.value_at(323_150), Ok(22_000));
    assert_eq!(curve.value_at(898_150), Ok(65_500));
    assert_eq!(curve.value_at(923_150), Ok(69_000));
    assert_eq!(curve.value_at(923_151), Err(RANGE_ERROR));
    assert_eq!(curve.value_at(273_149), Err(RANGE_ERROR));
}

#[test]
fn pyrogel_low_temperature_heat_capacity_data() {
    let (temperatures, values) = pryogel_hps_specific_heat_capacity_low_temp_data();
    assert_eq!(temperatures, vec![283_033, 297_169, 312_969]);
    assert_eq!(values, vec![883_261, 898_311, 983_814]);
    // 9.88 to 39.819 degrees Celsius
    assert_eq!(pryogel_hps_specific_heat_capacity_low_temp_range(283_030), Ok(true));
    assert_eq!(pryogel_hps_specific_heat_capacity_low_temp_range(312_969), Ok(true));
    assert_eq!(
        pryogel_hps_specific_heat_capacity_low_temp_range(283_029),
        Err(RANGE_ERROR)
    );
    assert_eq!(
        pryogel_hps_specific_heat_capacity_low_temp_range(312_970),
        Err(RANGE_ERROR)
    );
}

#[test]
fn pyrogel_scanning_calorimetry_data() {
    let (temperatures, values) = ground_pyrogel_hps_dsc_data();
    assert_eq!(temperatures.len(), 31);
    assert_eq!(values.len(), 31);
    assert_eq!(temperatures[0], 308_576);
    assert_eq!(temperatures[30], 599_444);
    assert!(temperatures.windows(2).all(|pair| pair[0] < pair[1]));
    assert_eq!(values[0], 261_000);
    assert_eq!(values[21], 374_000);
    assert_eq!(values[30], 283_000);
    assert_eq!(values.iter().copied().max(), Some(374_000));
    assert_eq!(values.iter().copied().min(), Some(261_000));
    // 35 to 327 degrees Celsius
    assert_eq!(ground_pyrogel_hps_dsc_range(308_150), Ok(true));
    assert_eq!(ground_pyrogel_hps_dsc_range(600_150), Ok(true));
    assert_eq!(ground_pyrogel_hps_dsc_range(308_149), Err(RANGE_ERROR));
    assert_eq!(ground_pyrogel_hps_dsc_range(600_151), Err(RANGE_ERROR));
}
