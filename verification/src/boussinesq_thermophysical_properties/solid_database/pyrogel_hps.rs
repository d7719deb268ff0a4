use vstd::prelude::*;
use crate::boussinesq_thermophysical_properties::material::range_check;
use crate::boussinesq_thermophysical_properties::property_curve::{PropertyCurve, Table};
use crate::tuas_lib_error::TuasLibError;
use crate::units::{
    AvailableEnergy, MassDensity, SpecificHeatCapacity, SpecificPower, SurfaceRoughness,
    ThermalConductivity, ThermodynamicTemperature, ZERO_CELSIUS,
};

verus! {

// Pyrogel HPS is an aerogel with silica fibres. Most of what is known of it
// comes from:
//
// Kovacs, Z., Csik, A., & Lakatos, A. (2023). Thermal stability
// investigations of different aerogel insulation materials at elevated
// temperature. Thermal Science and Engineering Progress, 42, 101906.

/// The specific heat capacity of Pyrogel HPS outside its crystallisation,
/// 1700 joule per kilogram and kelvin.
pub const PYROGEL_HPS_SPECIFIC_HEAT_CAPACITY: SpecificHeatCapacity = 1_700_000;

/// The specific enthalpy of Pyrogel HPS grows by this much per millikelvin.
pub const PYROGEL_HPS_ENTHALPY_PER_MILLIKELVIN: i64 = 1700;

/// The highest temperature at which Pyrogel HPS is described, 650 degrees
/// Celsius.
pub const PYROGEL_HPS_MAX_TEMPERATURE: ThermodynamicTemperature = 923_150;

/// The lowest temperature at which Pyrogel HPS is described, 10 degrees
/// Celsius.
pub const PYROGEL_HPS_MIN_TEMPERATURE: ThermodynamicTemperature = 283_150;

/// The density of Pyrogel HPS, 0.20 gram per cubic centimetre, as its data
/// sheet gives it.
pub fn pyrogel_hps_density() -> (result: Result<MassDensity, TuasLibError>)
    ensures
        result == Ok::<i64, TuasLibError>(200_000),
{
    Ok(200_000)
}

/// The surface roughness of Pyrogel HPS. None is published for it; that of
/// silica aerogel, 1150 to 1450 nanometre, suggests 1500 nanometre.
pub fn pyrogel_hps_surf_roughness() -> (roughness: SurfaceRoughness)
    ensures
        roughness == 1500,
{
    1500
}

/// Whether Pyrogel HPS is described at `temperature`: from 10 to 650 degrees
/// Celsius.
pub open spec fn pyrogel_hps_in_range(temperature: int) -> bool {
    PYROGEL_HPS_MIN_TEMPERATURE <= temperature <= PYROGEL_HPS_MAX_TEMPERATURE
}

/// The specific heat capacity of Pyrogel HPS between 10 and 650 degrees
/// Celsius, a rough estimate that leaves out the crystallisation: 1700 joule
/// per kilogram and kelvin. Outside that range it is a range error.
pub fn pryogel_hps_specific_heat_capacity_rough_estimate(
    temperature: ThermodynamicTemperature,
) -> (result: Result<SpecificHeatCapacity, TuasLibError>)
    ensures
        result == if pyrogel_hps_in_range(temperature as int) {
            Ok::<i64, TuasLibError>(PYROGEL_HPS_SPECIFIC_HEAT_CAPACITY)
        } else {
            Err::<i64, TuasLibError>(TuasLibError::ThermophysicalPropertyTemperatureRangeError)
        },
{
    match range_check(temperature, PYROGEL_HPS_MAX_TEMPERATURE, PYROGEL_HPS_MIN_TEMPERATURE) {
        Ok(_) => Ok(PYROGEL_HPS_SPECIFIC_HEAT_CAPACITY),
        Err(e) => Err(e),
    }
}

/// The specific enthalpy of Pyrogel HPS for the specific heat capacity of
/// 1700 joule per kilogram and kelvin, zero at zero degrees Celsius.
pub open spec fn pyrogel_hps_enthalpy_at(temperature: int) -> int {
    PYROGEL_HPS_ENTHALPY_PER_MILLIKELVIN * (temperature - ZERO_CELSIUS)
}

/// The specific enthalpy of Pyrogel HPS at `temperature`: 1700 joule per
/// kilogram for each kelvin above zero degrees Celsius, between 10 and 650
/// degrees Celsius. Outside that range it is a range error: the enthalpy
/// is not extrapolated.
pub fn pyrogel_hps_specific_enthalpy(temperature: ThermodynamicTemperature) -> (result: Result<
    AvailableEnergy,
    TuasLibError,
>)
    ensures
        result == if pyrogel_hps_in_range(temperature as int) {
            Ok::<i64, TuasLibError>(pyrogel_hps_enthalpy_at(temperature as int) as i64)
        } else {
            Err::<i64, TuasLibError>(TuasLibError::ThermophysicalPropertyTemperatureRangeError)
        },
        result matches Ok(enthalpy) ==> enthalpy == pyrogel_hps_enthalpy_at(temperature as int),
{
    match range_check(temperature, PYROGEL_HPS_MAX_TEMPERATURE, PYROGEL_HPS_MIN_TEMPERATURE) {
        Ok(_) => Ok(PYROGEL_HPS_ENTHALPY_PER_MILLIKELVIN * (temperature - ZERO_CELSIUS)),
        Err(e) => Err(e),
    }
}

/// The temperature at which Pyrogel HPS has the specific enthalpy
/// `specific_enthalpy`: the highest temperature at which its specific
/// enthalpy does not exceed that value. It is a range error where the
/// enthalpy is below that at 10 or above that at 650 degrees Celsius.
pub fn pyrogel_hps_temperature_from_specific_enthalpy(specific_enthalpy: AvailableEnergy) -> (result:
    Result<ThermodynamicTemperature, TuasLibError>)
    ensures
        result is Ok <==> pyrogel_hps_enthalpy_at(PYROGEL_HPS_MIN_TEMPERATURE as int)
            <= specific_enthalpy <= pyrogel_hps_enthalpy_at(PYROGEL_HPS_MAX_TEMPERATURE as int),
        result matches Ok(temperature) ==> pyrogel_hps_in_range(temperature as int)
            && pyrogel_hps_enthalpy_at(temperature as int) <= specific_enthalpy
            < pyrogel_hps_enthalpy_at(temperature + 1),
        result matches Err(e) ==> e == TuasLibError::ThermophysicalPropertyTemperatureRangeError,
{
    let lowest: i64 = PYROGEL_HPS_ENTHALPY_PER_MILLIKELVIN * (PYROGEL_HPS_MIN_TEMPERATURE
        - ZERO_CELSIUS);
    let highest: i64 = PYROGEL_HPS_ENTHALPY_PER_MILLIKELVIN * (PYROGEL_HPS_MAX_TEMPERATURE
        - ZERO_CELSIUS);
    if specific_enthalpy < lowest || specific_enthalpy > highest {
        return Err(TuasLibError::ThermophysicalPropertyTemperatureRangeError);
    }
    proof {
        vstd::arithmetic::div_mod::lemma_fundamental_div_mod(
            specific_enthalpy as int,
            PYROGEL_HPS_ENTHALPY_PER_MILLIKELVIN as int,
        );
        vstd::arithmetic::div_mod::lemma_mod_bound(
            specific_enthalpy as int,
            PYROGEL_HPS_ENTHALPY_PER_MILLIKELVIN as int,
        );
    }
    let above_zero_celsius: i64 = specific_enthalpy / PYROGEL_HPS_ENTHALPY_PER_MILLIKELVIN;
    Ok(above_zero_celsius + ZERO_CELSIUS)
}

/// The highest temperature at which Pyrogel HPS is described.
pub fn max_temp_pyrogel_hps() -> (temperature: ThermodynamicTemperature)
    ensures
        temperature == PYROGEL_HPS_MAX_TEMPERATURE,
{
    PYROGEL_HPS_MAX_TEMPERATURE
}

/// The lowest temperature at which Pyrogel HPS is described.
pub fn min_temp_pyrogel_hps() -> (temperature: ThermodynamicTemperature)
    ensures
        temperature == PYROGEL_HPS_MIN_TEMPERATURE,
{
    PYROGEL_HPS_MIN_TEMPERATURE
}

/// The temperatures of the thermal conductivities that the data sheet of
/// Pyrogel HPS gives: 0 to 650 degrees Celsius.
pub open spec fn thermal_conductivity_temperatures() -> Seq<i64> {
    seq![273_150i64, 373_150, 473_150, 573_150, 673_150, 773_150, 873_150, 923_150]
}

/// The thermal conductivities that the data sheet of Pyrogel HPS gives,
/// measured after ASTM C177 under a load of 2 psi: 20 to 69 milliwatt per
/// metre and kelvin.
pub open spec fn thermal_conductivity_values() -> Seq<i64> {
    seq![20_000i64, 24_000, 28_000, 33_000, 40_000, 49_000, 62_000, 69_000]
}

/// The thermal conductivities that the data sheet of Pyrogel HPS gives, with
/// their temperatures: the nodes of the spline through them.
pub fn pyrogel_thermal_conductivity_commercial_factsheet_data() -> (data: (
    Vec<ThermodynamicTemperature>,
    Vec<ThermalConductivity>,
))
    ensures
        data.0@ == thermal_conductivity_temperatures(),
        data.1@ == thermal_conductivity_values(),
{
    let mut temperatures: Vec<i64> = Vec::new();
    temperatures.push(273_150);
    temperatures.push(373_150);
    temperatures.push(473_150);
    temperatures.push(573_150);
    temperatures.push(673_150);
    temperatures.push(773_150);
    temperatures.push(873_150);
    temperatures.push(923_150);
    let mut values: Vec<i64> = Vec::new();
    values.push(20_000);
    values.push(24_000);
    values.push(28_000);
    values.push(33_000);
    values.push(40_000);
    values.push(49_000);
    values.push(62_000);
    values.push(69_000);
    assert(temperatures@ =~= thermal_conductivity_temperatures());
    assert(values@ =~= thermal_conductivity_values());
    (temperatures, values)
}

/// Whether the data sheet gives the thermal conductivity of Pyrogel HPS at
/// `temperature`: a range error outside 0 to 650 degrees Celsius.
pub fn pyrogel_thermal_conductivity_commercial_factsheet_range(
    temperature: ThermodynamicTemperature,
) -> (result: Result<bool, TuasLibError>)
    ensures
        result == if 273_150 <= temperature <= 923_150 {
            Ok::<bool, TuasLibError>(true)
        } else {
            Err::<bool, TuasLibError>(TuasLibError::ThermophysicalPropertyTemperatureRangeError)
        },
{
    range_check(temperature, 923_150, 273_150)
}

/// The thermal conductivity of Pyrogel HPS as a property curve: straight
/// lines between the values of the data sheet.
pub fn pyrogel_thermal_conductivity_commercial_factsheet_curve() -> (curve: PropertyCurve)
    ensures
        curve@ == (Table {
            xs: thermal_conductivity_temperatures(),
            ys: thermal_conductivity_values(),
        }),
{
    let data = pyrogel_thermal_conductivity_commercial_factsheet_data();
    proof {
        let table = Table {
            xs: thermal_conductivity_temperatures(),
            ys: thermal_conductivity_values(),
        };
        assert(table.xs.len() == 8);
        assert(table.ys.len() == 8);
        assert(table.wf());
    }
    PropertyCurve::new(data.0, data.1).unwrap()
}

/// The temperatures of the specific heat capacities of Pyrogel HPS below 40
/// degrees Celsius: 9.883 to 39.819 degrees Celsius.
pub open spec fn low_temperature_heat_capacity_temperatures() -> Seq<i64> {
    seq![283_033i64, 297_169, 312_969]
}

/// The specific heat capacities of Pyrogel HPS below 40 degrees Celsius:
/// 883.261 to 983.814 joule per kilogram and kelvin.
pub open spec fn low_temperature_heat_capacity_values() -> Seq<i64> {
    seq![883_261i64, 898_311, 983_814]
}

/// The specific heat capacities of Pyrogel HPS that were measured below 40
/// degrees Celsius, with their temperatures: the nodes of the spline through
/// them.
pub fn pryogel_hps_specific_heat_capacity_low_temp_data() -> (data: (
    Vec<ThermodynamicTemperature>,
    Vec<SpecificHeatCapacity>,
))
    ensures
        data.0@ == low_temperature_heat_capacity_temperatures(),
        data.1@ == low_temperature_heat_capacity_values(),
{
    let mut temperatures: Vec<i64> = Vec::new();
    temperatures.push(283_033);
    temperatures.push(297_169);
    temperatures.push(312_969);
    let mut values: Vec<i64> = Vec::new();
    values.push(883_261);
    values.push(898_311);
    values.push(983_814);
    assert(temperatures@ =~= low_temperature_heat_capacity_temperatures());
    assert(values@ =~= low_temperature_heat_capacity_values());
    (temperatures, values)
}

/// Whether the specific heat capacity of Pyrogel HPS was measured at
/// `temperature`: a range error outside 9.88 to 39.819 degrees Celsius.
pub fn pryogel_hps_specific_heat_capacity_low_temp_range(temperature: ThermodynamicTemperature) -> (result:
    Result<bool, TuasLibError>)
    ensures
        result == if 283_030 <= temperature <= 312_969 {
            Ok::<bool, TuasLibError>(true)
        } else {
            Err::<bool, TuasLibError>(TuasLibError::ThermophysicalPropertyTemperatureRangeError)
        },
{
    range_check(temperature, 312_969, 283_030)
}

/// The temperatures of the scanning calorimetry of ground Pyrogel HPS:
/// 35.426 to 326.294 degrees Celsius.
pub open spec fn dsc_temperatures() -> Seq<i64> {
    seq![
        308_576i64,
        315_235,
        323_759,
        332_282,
        347_731,
        361_582,
        372_769,
        396_742,
        410_060,
        424_444,
        439_360,
        451_613,
        463_333,
        473_987,
        488_371,
        499_025,
        507_549,
        512_876,
        516_605,
        521_400,
        524_596,
        526_727,
        530_989,
        533_120,
        535_783,
        538_980,
        540_578,
        544_307,
        552_298,
        577_336,
        599_444,
    ]
}

/// The specific power that the scanning calorimetry of ground Pyrogel HPS
/// measured: 0.261 to 0.374 milliwatt per milligram.
pub open spec fn dsc_specific_powers() -> Seq<i64> {
    seq![
        261_000i64,
        274_000,
        285_000,
        292_000,
        293_000,
        291_000,
        287_000,
        280_000,
        278_000,
        277_000,
        282_000,
        285_000,
        285_000,
        285_000,
        291_000,
        302_000,
        320_000,
        338_000,
        351_000,
        365_000,
        373_000,
        374_000,
        369_000,
        361_000,
        345_000,
        322_000,
        303_000,
        296_000,
        290_000,
        286_000,
        283_000,
    ]
}

/// The scanning calorimetry of ground Pyrogel HPS: the specific power
/// measured, with its temperatures, the nodes of the spline through them.
/// Grinding destroys the structure of the material, and it crystallises
/// while it is heated: neither its conductivity nor its heat capacity is that
/// of the blanket.
pub fn ground_pyrogel_hps_dsc_data() -> (data: (Vec<ThermodynamicTemperature>, Vec<SpecificPower>))
    ensures
        data.0@ == dsc_temperatures(),
        data.1@ == dsc_specific_powers(),
{
    let mut temperatures: Vec<i64> = Vec::new();
    temperatures.push(308_576);
    temperatures.push(315_235);
    temperatures.push(323_759);
    temperatures.push(332_282);
    temperatures.push(347_731);
    temperatures.push(361_582);
    temperatures.push(372_769);
    temperatures.push(396_742);
    temperatures.push(410_060);
    temperatures.push(424_444);
    temperatures.push(439_360);
    temperatures.push(451_613);
    temperatures.push(463_333);
    temperatures.push(473_987);
    temperatures.push(488_371);
    temperatures.push(499_025);
    temperatures.push(507_549);
    temperatures.push(512_876);
    temperatures.push(516_605);
    temperatures.push(521_400);
    temperatures.push(524_596);
    temperatures.push(526_727);
    temperatures.push(530_989);
    temperatures.push(533_120);
    temperatures.push(535_783);
    temperatures.push(538_980);
    temperatures.push(540_578);
    temperatures.push(544_307);
    temperatures.push(552_298);
    temperatures.push(577_336);
    temperatures.push(599_444);
    let mut values: Vec<i64> = Vec::new();
    values.push(261_000);
    values.push(274_000);
    values.push(285_000);
    values.push(292_000);
    values.push(293_000);
    values.push(291_000);
    values.push(287_000);
    values.push(280_000);
    values.push(278_000);
    values.push(277_000);
    values.push(282_000);
    values.push(285_000);
    values.push(285_000);
    values.push(285_000);
    values.push(291_000);
    values.push(302_000);
    values.push(320_000);
    values.push(338_000);
    values.push(351_000);
    values.push(365_000);
    values.push(373_000);
    values.push(374_000);
    values.push(369_000);
    values.push(361_000);
    values.push(345_000);
    values.push(322_000);
    values.push(303_000);
    values.push(296_000);
    values.push(290_000);
    values.push(286_000);
    values.push(283_000);
    assert(temperatures@ =~= dsc_temperatures());
    assert(values@ =~= dsc_specific_powers());
    (temperatures, values)
}

/// Whether the scanning calorimetry of ground Pyrogel HPS covers
/// `temperature`: a range error outside 35 to 327 degrees Celsius.
pub fn ground_pyrogel_hps_dsc_range(temperature: ThermodynamicTemperature) -> (result: Result<
    bool,
    TuasLibError,
>)
    ensures
        result == if 308_150 <= temperature <= 600_150 {
            Ok::<bool, TuasLibError>(true)
        } else {
            Err::<bool, TuasLibError>(TuasLibError::ThermophysicalPropertyTemperatureRangeError)
        },
{
    range_check(temperature, 600_150, 308_150)
}

} // verus!
