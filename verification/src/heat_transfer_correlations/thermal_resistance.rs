use vstd::prelude::*;
use crate::fixed_point::{mul_div, mul_mul_div, negate, negated, quotient, representable};
use crate::tuas_lib_error::TuasLibError;
use crate::units::{
    Area, DynamicViscosity, HeatTransfer, Length, MassRate, Ratio, ThermalConductance,
    ThermalConductivity, PI_BILLIONTHS,
};

verus! {

/// Square micrometres in a square metre.
pub const SQUARE_MICROMETRES_PER_SQUARE_METRE: i64 = 1_000_000_000_000;

/// Micrometres in a metre.
pub const MICROMETRES_PER_METRE: i64 = 1_000_000;

/// The scale of the intermediate of the Reynolds number.
pub const MASS_FLUX_SCALE: i64 = 1_000_000_000;

/// The conductance of a convective film: heat transfer coefficient times
/// area, `h A`.
pub open spec fn convective_conductance(heat_transfer_coeff: HeatTransfer, area: Area) -> Result<
    ThermalConductance,
    TuasLibError,
> {
    quotient(heat_transfer_coeff * area, SQUARE_MICROMETRES_PER_SQUARE_METRE as int)
}

/// The conductance of a solid layer: conductivity times the layer's shape
/// factor, `k A / L`. The shape factor `A / L` is a length that the geometry
/// of the layer fixes: area over thickness for a slab, `2 pi L / ln(r_o / r_i)`
/// for an annular cylinder of length `L`.
pub open spec fn layer_conductance(conductivity: ThermalConductivity, shape_factor: Length) -> Result<
    ThermalConductance,
    TuasLibError,
> {
    quotient(conductivity * shape_factor, MICROMETRES_PER_METRE as int)
}

/// The conductance of a plane solid layer of the given area and thickness:
/// `k A / L`.
pub open spec fn planar_conductance(
    conductivity: ThermalConductivity,
    area: Area,
    thickness: Length,
) -> Result<ThermalConductance, TuasLibError> {
    quotient(conductivity * area, thickness * MICROMETRES_PER_METRE)
}

/// The conductance of two conductances in series: their resistances add, so
/// it is `g1 g2 / (g1 + g2)`; it is zero where one of the two is. A negative
/// conductance is not representable.
pub open spec fn series_conductance(first: ThermalConductance, second: ThermalConductance) -> Result<
    ThermalConductance,
    TuasLibError,
> {
    if first < 0 || second < 0 {
        Err(TuasLibError::ValueNotRepresentable)
    } else if first == 0 || second == 0 {
        Ok(0i64)
    } else {
        Ok(((first * second) / (first + second)) as i64)
    }
}

/// The conductance of `number_of_paths` equal conductances in parallel:
/// their conductances add.
pub open spec fn parallel_conductance(single: ThermalConductance, number_of_paths: u32) -> Result<
    ThermalConductance,
    TuasLibError,
> {
    representable(single * number_of_paths)
}

/// The lateral surface of a cylinder: `pi D L`.
pub open spec fn cylinder_lateral_area(diameter: Length, length: Length) -> Result<
    Area,
    TuasLibError,
> {
    quotient(PI_BILLIONTHS * diameter * length, 1_000_000_000)
}

/// The heat transfer coefficient that belongs to a Nusselt number:
/// `Nu k / D`.
pub open spec fn heat_transfer_coefficient(
    nusselt: Ratio,
    conductivity: ThermalConductivity,
    lengthscale: Length,
) -> Result<HeatTransfer, TuasLibError> {
    quotient(nusselt * conductivity, lengthscale as int)
}

/// The Reynolds number of a flow that is not reversed: mass flow rate times
/// diameter over flow area and viscosity. It is computed in two steps, each
/// rounded towards minus infinity: first the mass flux times the diameter,
/// then its quotient by the viscosity.
pub open spec fn forward_reynolds_number(
    mass_flowrate: MassRate,
    hydraulic_diameter: Length,
    flow_area: Area,
    viscosity: DynamicViscosity,
) -> Result<Ratio, TuasLibError> {
    match quotient(mass_flowrate * hydraulic_diameter * MASS_FLUX_SCALE, flow_area as int) {
        Ok(flux) => quotient(flux * 1_000_000, viscosity as int),
        Err(e) => Err(e),
    }
}

/// The Reynolds number of a flow: mass flow rate times diameter over flow
/// area and viscosity. The Reynolds number of a reversed flow is the
/// opposite of that of the flow.
pub open spec fn reynolds_number(
    mass_flowrate: MassRate,
    hydraulic_diameter: Length,
    flow_area: Area,
    viscosity: DynamicViscosity,
) -> Result<Ratio, TuasLibError> {
    if mass_flowrate >= 0 {
        forward_reynolds_number(mass_flowrate, hydraulic_diameter, flow_area, viscosity)
    } else {
        match representable(-mass_flowrate) {
            Ok(reversed) => negated(
                forward_reynolds_number(reversed, hydraulic_diameter, flow_area, viscosity),
            ),
            Err(e) => Err(e),
        }
    }
}

/// The Reynolds number is odd in the mass flow: reversing the flow changes
/// its sign and nothing else.
pub proof fn lemma_reynolds_number_is_odd(
    mass_flowrate: MassRate,
    hydraulic_diameter: Length,
    flow_area: Area,
    viscosity: DynamicViscosity,
)
    requires
        mass_flowrate > 0,
        reynolds_number(mass_flowrate, hydraulic_diameter, flow_area, viscosity) is Ok,
    ensures
        reynolds_number((-mass_flowrate) as i64, hydraulic_diameter, flow_area, viscosity)
            == negated(reynolds_number(mass_flowrate, hydraulic_diameter, flow_area, viscosity)),
{
}

/// The quotient of two quantities of the same kind as a ratio.
pub open spec fn ratio_of(numerator: i64, denominator: i64) -> Result<Ratio, TuasLibError> {
    quotient(numerator * 1_000_000, denominator as int)
}

/// The product of a quantity and a ratio.
pub open spec fn scaled_by(quantity: i64, ratio: Ratio) -> Result<i64, TuasLibError> {
    quotient(quantity * ratio, 1_000_000)
}

/// What a bundle of equal paths takes from a neighbour through the
/// conductance of the bundle, the paths receive through their single
/// conductances, summed over the paths: the two heat rates sum to zero.
pub proof fn lemma_bundle_balances(
    single: ThermalConductance,
    number_of_paths: u32,
    path_temperature: int,
    neighbour_temperature: int,
)
    requires
        parallel_conductance(single, number_of_paths) is Ok,
    ensures
        parallel_conductance(single, number_of_paths)->Ok_0 * (path_temperature
            - neighbour_temperature) + number_of_paths * (single * (neighbour_temperature
            - path_temperature)) == 0,
{
    let bundle = parallel_conductance(single, number_of_paths)->Ok_0 as int;
    assert(bundle == single * number_of_paths);
    assert(single * number_of_paths * (path_temperature - neighbour_temperature) + number_of_paths
        * (single * (neighbour_temperature - path_temperature)) == 0) by (nonlinear_arith);
}

/// Two conductances in series conduct no better than either of them.
pub proof fn lemma_series_bounds(first: ThermalConductance, second: ThermalConductance)
    requires
        first >= 0,
        second >= 0,
    ensures
        series_conductance(first, second) matches Ok(g) && 0 <= g <= first && g <= second,
        series_conductance(first, second) == series_conductance(second, first),
        first > 0 && second > 0 ==> series_conductance(first, second)->Ok_0 == (first * second) / (
        first + second),
{
    if first > 0 && second > 0 {
        let sum = first + second;
        let product = first * second;
        let q = product / sum;
        let r = product % sum;
        assert(product == sum * q + r && 0 <= r < sum) by {
            vstd::arithmetic::div_mod::lemma_fundamental_div_mod(product, sum);
            vstd::arithmetic::div_mod::lemma_mod_bound(product, sum);
        }
        assert(0 <= q <= first && q <= second) by (nonlinear_arith)
            requires
                product == sum * q + r,
                0 <= r < sum,
                product == first * second,
                sum == first + second,
                first > 0,
                second > 0,
        ;
        assert(first * second == second * first) by (nonlinear_arith);
    }
}

pub fn try_get_convective_conductance(heat_transfer_coeff: HeatTransfer, area: Area) -> (result:
    Result<ThermalConductance, TuasLibError>)
    ensures
        result == convective_conductance(heat_transfer_coeff, area),
{
    mul_div(heat_transfer_coeff, area, SQUARE_MICROMETRES_PER_SQUARE_METRE)
}

pub fn try_get_layer_conductance(conductivity: ThermalConductivity, shape_factor: Length) -> (result:
    Result<ThermalConductance, TuasLibError>)
    ensures
        result == layer_conductance(conductivity, shape_factor),
{
    mul_div(conductivity, shape_factor, MICROMETRES_PER_METRE)
}

pub fn try_get_planar_conductance(
    conductivity: ThermalConductivity,
    area: Area,
    thickness: Length,
) -> (result: Result<ThermalConductance, TuasLibError>)
    ensures
        result == planar_conductance(conductivity, area, thickness),
{
    if thickness <= 0 {
        return Err(TuasLibError::ValueNotRepresentable);
    }
    assert(i128::MIN <= conductivity as int * area as int <= i128::MAX) by (nonlinear_arith)
        requires
            i64::MIN <= conductivity <= i64::MAX,
            i64::MIN <= area <= i64::MAX,
    ;
    let numerator: i128 = (conductivity as i128) * (area as i128);
    let denominator: i128 = (thickness as i128) * (MICROMETRES_PER_METRE as i128);
    proof {
        crate::fixed_point::lemma_quotient_bounds(numerator as int, denominator as int);
    }
    match numerator.checked_div_euclid(denominator) {
        Some(q) => crate::fixed_point::narrow(q),
        None => Err(TuasLibError::ValueNotRepresentable),
    }
}

pub fn try_get_series_conductance(first: ThermalConductance, second: ThermalConductance) -> (result:
    Result<ThermalConductance, TuasLibError>)
    ensures
        result == series_conductance(first, second),
{
    if first < 0 || second < 0 {
        return Err(TuasLibError::ValueNotRepresentable);
    }
    if first == 0 || second == 0 {
        return Ok(0);
    }
    proof {
        lemma_series_bounds(first, second);
    }
    let sum: i128 = first as i128 + second as i128;
    assert(0 <= first * second <= i128::MAX) by (nonlinear_arith)
        requires
            0 < first <= i64::MAX,
            0 < second <= i64::MAX,
    ;
    let product: i128 = (first as i128) * (second as i128);
    match product.checked_div_euclid(sum) {
        Some(q) => Ok(q as i64),
        None => Err(TuasLibError::ValueNotRepresentable),
    }
}

pub fn try_get_parallel_conductance(single: ThermalConductance, number_of_paths: u32) -> (result:
    Result<ThermalConductance, TuasLibError>)
    ensures
        result == parallel_conductance(single, number_of_paths),
{
    match single.checked_mul(number_of_paths as i64) {
        Some(conductance) => Ok(conductance),
        None => Err(TuasLibError::ValueNotRepresentable),
    }
}

pub fn try_get_cylinder_lateral_area(diameter: Length, length: Length) -> (result: Result<
    Area,
    TuasLibError,
>)
    ensures
        result == cylinder_lateral_area(diameter, length),
{
    mul_mul_div(PI_BILLIONTHS, diameter, length, 1_000_000_000)
}

pub fn try_get_heat_transfer_coefficient(
    nusselt: Ratio,
    conductivity: ThermalConductivity,
    lengthscale: Length,
) -> (result: Result<HeatTransfer, TuasLibError>)
    ensures
        result == heat_transfer_coefficient(nusselt, conductivity, lengthscale),
{
    mul_div(nusselt, conductivity, lengthscale)
}

pub fn try_get_reynolds_number(
    mass_flowrate: MassRate,
    hydraulic_diameter: Length,
    flow_area: Area,
    viscosity: DynamicViscosity,
) -> (result: Result<Ratio, TuasLibError>)
    ensures
        result == reynolds_number(mass_flowrate, hydraulic_diameter, flow_area, viscosity),
{
    if mass_flowrate >= 0 {
        try_get_forward_reynolds_number(mass_flowrate, hydraulic_diameter, flow_area, viscosity)
    } else {
        match 0i64.checked_sub(mass_flowrate) {
            Some(reversed) => negate(
                try_get_forward_reynolds_number(reversed, hydraulic_diameter, flow_area, viscosity),
            ),
            None => Err(TuasLibError::ValueNotRepresentable),
        }
    }
}

fn try_get_forward_reynolds_number(
    mass_flowrate: MassRate,
    hydraulic_diameter: Length,
    flow_area: Area,
    viscosity: DynamicViscosity,
) -> (result: Result<Ratio, TuasLibError>)
    ensures
        result == forward_reynolds_number(mass_flowrate, hydraulic_diameter, flow_area, viscosity),
{
    match mul_mul_div(mass_flowrate, hydraulic_diameter, MASS_FLUX_SCALE, flow_area) {
        Ok(flux) => mul_div(flux, 1_000_000, viscosity),
        Err(e) => Err(e),
    }
}

pub fn try_get_ratio(numerator: i64, denominator: i64) -> (result: Result<Ratio, TuasLibError>)
    ensures
        result == ratio_of(numerator, denominator),
{
    mul_div(numerator, 1_000_000, denominator)
}

pub fn try_scale(quantity: i64, ratio: Ratio) -> (result: Result<i64, TuasLibError>)
    ensures
        result == scaled_by(quantity, ratio),
{
    mul_div(quantity, ratio, 1_000_000)
}

} // verus!
