use tuas_boussinesq_solver::heat_transfer_correlations::darcy_loss_correlations::DimensionlessDarcyLossCorrelations;
use tuas_boussinesq_solver::heat_transfer_correlations::heat_transfer_interactions::{
    try_get_cylindrical_conductance, try_get_thermal_conductance_based_on_interaction,
    DataAdvection, DataCylindricalConductionConvection, DataUserSpecifiedConvectionResistance,
    HeatTransferInteractionType,
};
use tuas_boussinesq_solver::heat_transfer_correlations::nusselt_number_correlations::{
    GnielinskiData, NusseltPrandtlReynoldsData, WakaoData,
};
use tuas_boussinesq_solver::heat_transfer_correlations::thermal_resistance::{
    try_get_convective_conductance, try_get_cylinder_lateral_area,
    try_get_heat_transfer_coefficient, try_get_layer_conductance,
    try_get_parallel_conductance, try_get_planar_conductance, try_get_ratio, try_get_reynolds_number, try_get_series_conductance, try_scale,
};
use tuas_boussinesq_solver::tuas_lib_error::TuasLibError;

#[test]
fn film_conductance_is_coefficient_times_area() {
    // 20 W/(m2 K) on 0.2 m2 is 4 W/K
    assert_eq!(try_get_convective_conductance(20_000_000, 200_000_000_000), Ok(4_000_000));
    assert_eq!(try_get_convective_conductance(0, 200_000_000_000), Ok(0));
    assert_eq!(
        try_get_convective_conductance(i64::MAX, i64::MAX),
        Err(TuasLibError::ValueNotRepresentable)
    );
}

#[test]
fn layer_conductance_is_conductivity_times_shape_factor() {
    // 16 W/(m K) over a shape factor of 428.253246 m
    assert_eq!(try_get_layer_conductance(16_000_000, 428_253_246), Ok(6_852_051_936));
}

#[test]
fn plane_layer_conductance_is_conductivity_times_area_over_thickness() {
    // 16 W/(m K) * 0.01 m2 / 0.005 m = 32 W/K
    assert_eq!(try_get_planar_conductance(16_000_000, 10_000_000_000, 5_000), Ok(32_000_000));
    // 0.04 W/(m K) * 1 m2 / 0.05 m = 0.8 W/K
    assert_eq!(try_get_planar_conductance(40_000, 1_000_000_000_000, 50_000), Ok(800_000));
    assert_eq!(try_get_planar_conductance(40_000, 1_000_000_000_000, i64::MAX), Ok(0));
    assert_eq!(
        try_get_planar_conductance(40_000, 1_000_000_000_000, 0),
        Err(TuasLibError::ValueNotRepresentable)
    );
    assert_eq!(
        try_get_planar_conductance(i64::MAX, i64::MAX, 1),
        Err(TuasLibError::ValueNotRepresentable)
    );
}

#[test]
fn resistances_in_series_add() {
    assert_eq!(try_get_series_conductance(4_000_000, 4_000_000), Ok(2_000_000));
    // 1 / (1/3 + 1/6) = 2
    assert_eq!(try_get_series_conductance(3_000_000, 6_000_000), Ok(2_000_000));
    assert_eq!(try_get_series_conductance(0, 6_000_000), Ok(0));
    assert_eq!(try_get_series_conductance(6_000_000, 0), Ok(0));
    assert_eq!(try_get_series_conductance(0, 0), Ok(0));
    assert_eq!(try_get_series_conductance(i64::MAX, i64::MAX), Ok(i64::MAX / 2));
    assert_eq!(
        try_get_series_conductance(-1, 6_000_000),
        Err(TuasLibError::ValueNotRepresentable)
    );
    assert_eq!(
        try_get_series_conductance(6_000_000, -1),
        Err(TuasLibError::ValueNotRepresentable)
    );
}

#[test]
fn conductances_in_parallel_add() {
    assert_eq!(try_get_parallel_conductance(3_107_790, 10), Ok(31_077_900));
    assert_eq!(try_get_parallel_conductance(3_107_790, 0), Ok(0));
    assert_eq!(
        try_get_parallel_conductance(i64::MAX, 2),
        Err(TuasLibError::ValueNotRepresentable)
    );
}

#[test]
fn lateral_area_of_a_cylinder() {
    // pi * 0.04 m * 1.6383 m = 0.205874849... m2
    assert_eq!(try_get_cylinder_lateral_area(40_000, 1_638_300), Ok(205_874_849_801));
    assert_eq!(try_get_cylinder_lateral_area(38_100, 1_638_300), Ok(196_095_794_436));
}

#[test]
fn heat_transfer_coefficient_from_nusselt_number() {
    // 4.36 * 0.12 W/(m K) / 0.01467 m = 35.66 W/(m2 K)
    assert_eq!(try_get_heat_transfer_coefficient(4_360_000, 120_000, 14_670), Ok(35_664_621));
    assert_eq!(
        try_get_heat_transfer_coefficient(4_360_000, 120_000, 0),
        Err(TuasLibError::ValueNotRepresentable)
    );
}

#[test]
fn reynolds_number_of_a_flow() {
    // 0.18 kg/s * 0.01467 m / (0.00105 m2 * 0.0025 Pa s) = 1005.94
    assert_eq!(
        try_get_reynolds_number(180_000, 14_670, 1_050_000_000, 2_500_000),
        Ok(1_005_942_856)
    );
    // the same flow the other way has the opposite Reynolds number
    assert_eq!(
        try_get_reynolds_number(-180_000, 14_670, 1_050_000_000, 2_500_000),
        Ok(-1_005_942_856)
    );
    assert_eq!(
        try_get_reynolds_number(i64::MIN, 14_670, 1_050_000_000, 2_500_000),
        Err(TuasLibError::ValueNotRepresentable)
    );
    assert_eq!(
        try_get_reynolds_number(180_000, 14_670, 0, 2_500_000),
        Err(TuasLibError::ValueNotRepresentable)
    );
    assert_eq!(
        try_get_reynolds_number(180_000, 14_670, 1_050_000_000, 0),
        Err(TuasLibError::ValueNotRepresentable)
    );
}

#[test]
fn ratios_and_scaling() {
    // 1.6383 m / 0.01467 m = 111.676...
    assert_eq!(try_get_ratio(1_638_300, 14_670), Ok(111_676_891));
    assert_eq!(try_scale(163_830, 255_117_497), Ok(41_795_899));
}

#[test]
fn conductance_of_each_interaction() {
    assert_eq!(
        try_get_thermal_conductance_based_on_interaction(
            HeatTransferInteractionType::UserSpecifiedThermalConductance(123)
        ),
        Ok(123)
    );
    assert_eq!(
        try_get_thermal_conductance_based_on_interaction(
            HeatTransferInteractionType::UserSpecifiedConvectionResistance(
                DataUserSpecifiedConvectionResistance {
                    surf_area: 200_000_000_000,
                    heat_transfer_coeff: 20_000_000,
                }
            )
        ),
        Ok(4_000_000)
    );
    let data = DataCylindricalConductionConvection {
        solid_conductivity: 16_000_000,
        solid_shape_factor: 41_795_899,
        heat_transfer_coeff: 35_664_621,
        film_diameter: 38_100,
        node_length: 163_830,
    };
    // the half wall: 16 * 41.795899 = 668.734384 W/K
    // the film: pi * 0.0381 * 0.16383 m2 * 35.664621 W/(m2 K) = 0.699368 W/K
    // in series: 0.698637 W/K
    assert_eq!(try_get_cylindrical_conductance(data), Ok(698_637));
    assert_eq!(
        try_get_thermal_conductance_based_on_interaction(
            HeatTransferInteractionType::CylindricalConductionConvectionLiquidInside(data)
        ),
        Ok(698_637)
    );
    assert_eq!(
        try_get_thermal_conductance_based_on_interaction(
            HeatTransferInteractionType::CylindricalConductionConvectionLiquidOutside(data)
        ),
        Ok(698_637)
    );
    for interaction in [
        HeatTransferInteractionType::UserSpecifiedHeatAddition,
        HeatTransferInteractionType::UserSpecifiedHeatFluxCustomArea(1),
        HeatTransferInteractionType::new_advection_interaction(1, 2, 3),
    ] {
        assert_eq!(
            try_get_thermal_conductance_based_on_interaction(interaction),
            Err(TuasLibError::TypeConversionError)
        );
    }
    assert_eq!(
        HeatTransferInteractionType::new_advection_interaction(1, 2, 3),
        HeatTransferInteractionType::Advection(DataAdvection {
            mass_flowrate: 1,
            fluid_density_heat_transfer_entity_1: 2,
            fluid_density_heat_transfer_entity_2: 3,
        })
    );
}

#[test]
fn loss_correlation_of_a_pipe() {
    // roughness 15 um in a pipe of 14.67 mm, 1.6383 m long
    assert_eq!(
        DimensionlessDarcyLossCorrelations::new_pipe(1_638_300, 15_000, 14_670, 100_000),
        Ok(DimensionlessDarcyLossCorrelations::Pipe {
            roughness_ratio: 1_022,
            length_to_diameter: 111_676_891,
            form_loss: 100_000,
        })
    );
    assert_eq!(
        DimensionlessDarcyLossCorrelations::new_pipe(1_638_300, 15_000, 0, 100_000),
        Err(TuasLibError::ValueNotRepresentable)
    );
    assert_eq!(
        DimensionlessDarcyLossCorrelations::new_simple_reynolds_power_component(
            0, 17_900_000, -340_000
        ),
        DimensionlessDarcyLossCorrelations::SimpleReynoldsPower {
            a: 0,
            b: 17_900_000,
            c: -340_000,
        }
    );
}

#[test]
fn correlation_data_starts_at_zero() {
    assert_eq!(
        GnielinskiData::default(),
        GnielinskiData {
            reynolds: 0,
            prandtl_bulk: 0,
            prandtl_wall: 0,
            darcy_friction_factor: 0,
            length_to_diameter: 0,
        }
    );
    assert_eq!(
        NusseltPrandtlReynoldsData::default(),
        NusseltPrandtlReynoldsData { reynolds: 0, prandtl_bulk: 0, prandtl_wall: 0 }
    );
    assert_eq!(WakaoData::default(), WakaoData { reynolds: 0, prandtl_bulk: 0 });
}
