use tuas_boussinesq_solver::array_control_vol::fluid_array::FluidArray;
use tuas_boussinesq_solver::array_control_vol::solid_column::SolidColumn;
use tuas_boussinesq_solver::boundary_conditions::BCType;
use tuas_boussinesq_solver::boussinesq_thermophysical_properties::material::Material;
use tuas_boussinesq_solver::boussinesq_thermophysical_properties::property_curve::PropertyCurve;
use tuas_boussinesq_solver::heat_transfer_correlations::heat_transfer_interactions::HeatTransferInteractionType;
use tuas_boussinesq_solver::heat_transfer_correlations::nusselt_number_correlations::GnielinskiData;
use tuas_boussinesq_solver::pre_built_components::heat_transfer_entities::{
    CVType, HeatTransferEntity,
};
use tuas_boussinesq_solver::pre_built_components::shell_and_tube_heat_exchanger::{
    try_get_film_nusselt_data, try_get_half_wall_and_film_conductance,
    try_get_half_wall_conductance, HalfLayerShapeFactors, ShellAndTubeNusseltNumbers,
    SimpleShellAndTubeHeatExchanger,
};
use tuas_boussinesq_solver::tuas_lib_error::TuasLibError;

/// An oil from 250 K to 400 K whose viscosity falls from 2 mPa s to
/// 0.5 mPa s: 1000 kg/m3, 2000 J/(kg K), 0.5 W/(m K).
fn oil() -> Material {
    Material::new(
        PropertyCurve::constant(250_000, 400_000, 1_000_000).unwrap(),
        PropertyCurve::constant(250_000, 400_000, 2_000_000).unwrap(),
        PropertyCurve::constant(250_000, 400_000, 500_000).unwrap(),
        PropertyCurve::new(vec![250_000, 400_000], vec![-46_300_000, 253_700_000]).unwrap(),
        Some(PropertyCurve::new(vec![250_000, 400_000], vec![2_000_000, 500_000]).unwrap()),
    )
    .unwrap()
}

fn steel() -> Material {
    // 250 K to 1000 K, 8000 kg/m3, 500 J/(kg K), 16 W/(m K)
    Material::with_constant_properties(250_000, 1_000_000, 8_000_000, 500_000, 16_000_000, None)
        .unwrap()
}

fn fiberglass() -> Material {
    // 250 K to 1000 K, 20 kg/m3, 800 J/(kg K), 0.04 W/(m K)
    Material::with_constant_properties(250_000, 1_000_000, 20_000, 800_000, 40_000, None).unwrap()
}

fn solid(column: SolidColumn) -> HeatTransferEntity {
    HeatTransferEntity::from(CVType::SolidArrayCV(column))
}

fn fluid(array: FluidArray) -> HeatTransferEntity {
    HeatTransferEntity::from(CVType::FluidArrayCV(array))
}

fn tube_wall(temperature: i64) -> HeatTransferEntity {
    solid(
        SolidColumn::new_cylindrical_shell(
            1_000_000, 10_000, 12_000, temperature, 101_325, steel(), 2,
        )
        .unwrap(),
    )
}

/// A heat exchanger of 1 m in four nodes with ten tubes of 10 mm by 12 mm in
/// a shell of 100 mm by 110 mm: tube side at 350 K, tube walls at 340 K,
/// shell side at 300 K, outer shell at 305 K, insulation of 20 mm at 295 K,
/// air of 290 K.
fn heat_exchanger(heat_exchanger_has_insulation: bool) -> SimpleShellAndTubeHeatExchanger {
    SimpleShellAndTubeHeatExchanger {
        number_of_nodes: 4,
        number_of_tubes: 10,
        heat_exchanger_has_insulation,
        tube_side_fluid_array_for_single_tube: fluid(
            FluidArray::new_odd_shaped_pipe(
                1_000_000, 10_000, 78_539_816, 350_000, 101_325, oil(), 2,
            )
            .unwrap(),
        ),
        inner_pipe_shell_array_for_single_tube: tube_wall(340_000),
        shell_side_fluid_array: fluid(
            FluidArray::new_odd_shaped_pipe(
                1_000_000,
                30_000,
                5_000_000_000,
                300_000,
                101_325,
                oil(),
                2,
            )
            .unwrap(),
        ),
        outer_shell: solid(
            SolidColumn::new_cylindrical_shell(
                1_000_000, 100_000, 110_000, 305_000, 101_325, steel(), 2,
            )
            .unwrap(),
        ),
        insulation_array: solid(
            SolidColumn::new_cylindrical_shell(
                1_000_000, 110_000, 150_000, 295_000, 101_325, fiberglass(), 2,
            )
            .unwrap(),
        ),
        ambient_temperature: 290_000,
        heat_transfer_to_ambient: 10_000_000,
        tube_side_id: 10_000,
        tube_side_od: 12_000,
        shell_side_id: 100_000,
        shell_side_od: 110_000,
        insulation_thickness: 20_000,
        // 2 pi / ln(11/10), ln(12/11), ln(105/100), ln(110/105), ln(130/110),
        // ln(150/130)
        shape_factors: HalfLayerShapeFactors {
            tube_inner_half: 65_923_549,
            tube_outer_half: 72_211_078,
            shell_inner_half: 128_779_753,
            shell_outer_half: 135_064_127,
            insulation_inner_half: 37_611_683,
            insulation_outer_half: 43_907_395,
        },
    }
}

const NUSSELT: ShellAndTubeNusseltNumbers = ShellAndTubeNusseltNumbers {
    tube_side: 10_000_000,
    shell_side_to_tubes: 20_000_000,
    shell_side_to_outer_shell: 5_000_000,
};

fn lateral(entity: &HeatTransferEntity) -> Vec<i128> {
    entity.column().unwrap().lateral_heat_rate_vector()
}

fn ends(entity: &HeatTransferEntity) -> (i128, i128) {
    let column = entity.column().unwrap();
    (column.back_heat_rate(), column.front_heat_rate())
}

fn flow(entity: &HeatTransferEntity) -> i64 {
    entity.as_fluid_array().ok().unwrap().get_mass_flowrate()
}

#[test]
fn conductances_between_the_layers_of_the_heat_exchanger() {
    let mut insulated = heat_exchanger(true);
    let mut bare = heat_exchanger(false);
    assert_eq!(insulated.get_air_to_outer_sthe_layer_nodal_conductance(10_000_000), Ok(319_861));
    assert_eq!(bare.get_air_to_outer_sthe_layer_nodal_conductance(10_000_000), Ok(862_557));
    for exchanger in [&mut insulated, &mut bare] {
        assert_eq!(
            exchanger.get_single_tube_side_fluid_array_node_to_inner_pipe_shell_nodal_conductance(
                10_000_000
            ),
            Ok(3_869_366)
        );
        assert_eq!(
            exchanger.get_shell_side_fluid_to_single_inner_pipe_shell_nodal_conductance(20_000_000),
            Ok(3_107_790)
        );
        assert_eq!(
            exchanger.get_shell_side_fluid_to_outer_pipe_shell_nodal_conductance(5_000_000),
            Ok(6_462_868)
        );
        assert_eq!(exchanger.get_outer_pipe_shell_to_insulation_conductance(), Ok(375_854));
    }
    // 0.04 W/(m K) * 37.611683 * 0.25 m and 16 W/(m K) * 135.064127 * 0.25 m
    assert_eq!(try_get_half_wall_conductance(40_000, 37_611_683, 250_000), Ok(376_116));
    assert_eq!(try_get_half_wall_conductance(16_000_000, 135_064_127, 250_000), Ok(540_256_496));
    assert_eq!(
        try_get_half_wall_and_film_conductance(10_000_000, 40_000, 43_907_395, 150_000, 250_000),
        Ok(319_861)
    );
}

#[test]
fn insulation_thickness_can_be_calibrated() {
    let mut exchanger = heat_exchanger(true);
    assert_eq!(exchanger.get_insulation_thickness(), 20_000);
    // 10 mm: 2 pi / ln(120/110) and 2 pi / ln(130/120)
    exchanger.calibrate_insulation_thickness(10_000, 72_211_078, 78_497_911);
    assert_eq!(exchanger.get_insulation_thickness(), 10_000);
    assert_eq!(exchanger.shape_factors.insulation_inner_half, 72_211_078);
    assert_eq!(exchanger.shape_factors.insulation_outer_half, 78_497_911);
    assert_eq!(exchanger.shape_factors.tube_inner_half, 65_923_549);
    // thinner insulation conducts better
    let thin = exchanger.get_air_to_outer_sthe_layer_nodal_conductance(10_000_000).unwrap();
    assert!(thin > 319_861);
    let between = exchanger.get_outer_pipe_shell_to_insulation_conductance().unwrap();
    assert!(between > 375_854);
}

#[test]
fn mass_flows_are_set_on_both_sides() {
    let mut exchanger = heat_exchanger(true);
    // 0.5 kg/s through ten tubes
    assert_eq!(exchanger.set_tube_side_total_mass_flowrate(500_000), Ok(()));
    assert_eq!(flow(&exchanger.tube_side_fluid_array_for_single_tube), 50_000);
    // a reversed total is a reversed flow through each tube
    assert_eq!(exchanger.set_tube_side_total_mass_flowrate(-500_000), Ok(()));
    assert_eq!(flow(&exchanger.tube_side_fluid_array_for_single_tube), -50_000);
    assert_eq!(exchanger.set_tube_side_total_mass_flowrate(-5), Ok(()));
    assert_eq!(flow(&exchanger.tube_side_fluid_array_for_single_tube), 0);
    assert_eq!(exchanger.set_tube_side_total_mass_flowrate(5), Ok(()));
    assert_eq!(flow(&exchanger.tube_side_fluid_array_for_single_tube), 0);
    assert_eq!(exchanger.set_shell_side_total_mass_flowrate(-2_000_000), Ok(()));
    assert_eq!(flow(&exchanger.shell_side_fluid_array), -2_000_000);
    exchanger.number_of_tubes = 0;
    assert_eq!(
        exchanger.set_tube_side_total_mass_flowrate(500_000),
        Err(TuasLibError::ValueNotRepresentable)
    );
    assert_eq!(flow(&exchanger.tube_side_fluid_array_for_single_tube), 0);
}

#[test]
fn nusselt_data_of_the_three_films() {
    let mut exchanger = heat_exchanger(true);
    exchanger.set_tube_side_total_mass_flowrate(500_000).unwrap();
    exchanger.set_shell_side_total_mass_flowrate(-2_000_000).unwrap();
    // tube side: 0.05 kg/s * 0.01 m / (78.54 mm2 * 1 mPa s) = 6366.2
    assert_eq!(
        exchanger.get_tube_side_nusselt_data(false),
        Ok(GnielinskiData {
            reynolds: 6_366_197_751,
            prandtl_bulk: 4_000_000,
            prandtl_wall: 4_000_000,
            darcy_friction_factor: 0,
            length_to_diameter: 100_000_000,
        })
    );
    // the wall at 340 K: 1.1 mPa s
    assert_eq!(
        exchanger.get_tube_side_nusselt_data(true),
        Ok(GnielinskiData {
            reynolds: 6_366_197_751,
            prandtl_bulk: 4_000_000,
            prandtl_wall: 4_400_000,
            darcy_friction_factor: 0,
            length_to_diameter: 100_000_000,
        })
    );
    // shell side, flowing the other way: the size of the Reynolds number counts
    assert_eq!(
        exchanger.get_shell_side_to_tubes_nusselt_data(true),
        Ok(GnielinskiData {
            reynolds: 8_000_000_000,
            prandtl_bulk: 6_000_000,
            prandtl_wall: 4_400_000,
            darcy_friction_factor: 0,
            length_to_diameter: 33_333_333,
        })
    );
    assert_eq!(
        exchanger.get_shell_side_to_outer_shell_nusselt_data(true),
        Ok(GnielinskiData {
            reynolds: 8_000_000_000,
            prandtl_bulk: 6_000_000,
            prandtl_wall: 5_800_000,
            darcy_friction_factor: 0,
            length_to_diameter: 33_333_333,
        })
    );
    assert_eq!(
        exchanger.get_shell_side_to_outer_shell_nusselt_data(false),
        Ok(GnielinskiData {
            reynolds: 8_000_000_000,
            prandtl_bulk: 6_000_000,
            prandtl_wall: 6_000_000,
            darcy_friction_factor: 0,
            length_to_diameter: 33_333_333,
        })
    );
}

#[test]
fn wall_temperature_beyond_the_fluid_is_taken_at_the_limit_of_the_fluid() {
    let mut exchanger = heat_exchanger(true);
    // a wall at 450 K, hotter than the oil is described: the oil at 400 K
    exchanger.inner_pipe_shell_array_for_single_tube = tube_wall(450_000);
    assert_eq!(
        exchanger.get_tube_side_nusselt_data(true).map(|data| data.prandtl_wall),
        Ok(2_000_000)
    );
    assert_eq!(
        exchanger.get_shell_side_to_tubes_nusselt_data(true).map(|data| data.prandtl_wall),
        Ok(2_000_000)
    );
    // at exactly the limit
    exchanger.inner_pipe_shell_array_for_single_tube = tube_wall(400_000);
    assert_eq!(
        exchanger.get_tube_side_nusselt_data(true).map(|data| data.prandtl_wall),
        Ok(2_000_000)
    );
    // a wall colder than the oil is described: the oil at 250 K
    let cold = Material::with_constant_properties(
        100_000, 1_000_000, 8_000_000, 500_000, 16_000_000, None,
    )
    .unwrap();
    exchanger.inner_pipe_shell_array_for_single_tube = solid(
        SolidColumn::new_cylindrical_shell(1_000_000, 10_000, 12_000, 150_000, 101_325, cold, 2)
            .unwrap(),
    );
    assert_eq!(
        exchanger.get_tube_side_nusselt_data(true).map(|data| data.prandtl_wall),
        Ok(8_000_000)
    );
    // without wall correction the wall does not count
    assert_eq!(
        exchanger.get_tube_side_nusselt_data(false).map(|data| data.prandtl_wall),
        Ok(4_000_000)
    );
    let array = FluidArray::new_odd_shaped_pipe(
        1_000_000, 10_000, 78_539_816, 350_000, 101_325, oil(), 2,
    )
    .unwrap();
    assert_eq!(
        try_get_film_nusselt_data(&array, 10_000, 78_539_816, i64::MAX, true)
            .map(|data| data.prandtl_wall),
        Ok(2_000_000)
    );
    assert_eq!(
        try_get_film_nusselt_data(&array, 10_000, 78_539_816, i64::MIN, true)
            .map(|data| data.prandtl_wall),
        Ok(8_000_000)
    );
}

#[test]
fn connections_of_the_insulated_heat_exchanger() {
    let mut exchanger = heat_exchanger(true);
    assert_eq!(
        exchanger.lateral_and_miscellaneous_connections(500_000, -2_000_000, NUSSELT),
        Ok(())
    );
    assert_eq!(flow(&exchanger.tube_side_fluid_array_for_single_tube), 50_000);
    assert_eq!(flow(&exchanger.shell_side_fluid_array), -2_000_000);
    // 3.869366 W/K * -10 K
    assert_eq!(
        lateral(&exchanger.tube_side_fluid_array_for_single_tube),
        vec![-38_693_660_000; 4]
    );
    // 3.869366 W/K * 10 K + 3.10779 W/K * -40 K
    assert_eq!(
        lateral(&exchanger.inner_pipe_shell_array_for_single_tube),
        vec![-85_617_940_000; 4]
    );
    // ten tubes: 31.0779 W/K * 40 K + 6.462868 W/K * 5 K
    assert_eq!(lateral(&exchanger.shell_side_fluid_array), vec![1_275_430_340_000; 4]);
    // 6.462868 W/K * -5 K + 0.375854 W/K * -10 K
    assert_eq!(lateral(&exchanger.outer_shell), vec![-36_072_880_000; 4]);
    // 0.375854 W/K * 10 K + 0.319861 W/K * -5 K
    assert_eq!(lateral(&exchanger.insulation_array), vec![2_159_235_000; 4]);
    for entity in [
        &exchanger.tube_side_fluid_array_for_single_tube,
        &exchanger.inner_pipe_shell_array_for_single_tube,
        &exchanger.shell_side_fluid_array,
        &exchanger.outer_shell,
        &exchanger.insulation_array,
    ] {
        assert_eq!(ends(entity), (0, 0));
    }
    assert_eq!(exchanger.advance_timestep(10), Ok(()));
    assert_eq!(lateral(&exchanger.insulation_array), vec![0; 4]);
}

#[test]
fn connections_of_the_bare_heat_exchanger() {
    let mut exchanger = heat_exchanger(false);
    let mut hot = HeatTransferEntity::from(BCType::new_const_temperature(400_000));
    let conduction = HeatTransferInteractionType::UserSpecifiedThermalConductance(1_000_000);
    exchanger.insulation_array.link_to_front(&mut hot, conduction).unwrap();
    exchanger.outer_shell.link_to_front(&mut hot, conduction).unwrap();
    exchanger
        .insulation_array
        .lateral_link_new_temperature_vector_avg_conductance(1_000_000, vec![296_000; 4])
        .unwrap();
    assert_eq!(
        exchanger.lateral_and_miscellaneous_connections(500_000, -2_000_000, NUSSELT),
        Ok(())
    );
    assert_eq!(
        lateral(&exchanger.inner_pipe_shell_array_for_single_tube),
        vec![-85_617_940_000; 4]
    );
    assert_eq!(lateral(&exchanger.shell_side_fluid_array), vec![1_275_430_340_000; 4]);
    // to the shell side fluid, and to the air through the film on the outer
    // shell and its outer half: 6.462868 W/K * -5 K + 0.862557 W/K * -15 K
    assert_eq!(lateral(&exchanger.outer_shell), vec![-45_252_695_000; 4]);
    assert_eq!(ends(&exchanger.outer_shell), (0, 0));
    // the insulation takes no part
    assert_eq!(lateral(&exchanger.insulation_array), vec![1_000_000_000; 4]);
    assert_eq!(ends(&exchanger.insulation_array), (0, 105_000_000_000));
    assert_eq!(exchanger.advance_timestep(10), Ok(()));
    assert_eq!(lateral(&exchanger.outer_shell), vec![0; 4]);
    assert_eq!(lateral(&exchanger.insulation_array), vec![1_000_000_000; 4]);
    assert_eq!(exchanger.zero_power_bc_axial_connection(), Ok(()));
    assert_eq!(ends(&exchanger.insulation_array), (0, 105_000_000_000));
}

#[test]
fn failed_connections_leave_the_heat_exchanger_as_it_was() {
    // an outer shell of another number of nodes
    let mut exchanger = heat_exchanger(true);
    exchanger.outer_shell = solid(
        SolidColumn::new_cylindrical_shell(
            1_000_000, 100_000, 110_000, 305_000, 101_325, steel(), 5,
        )
        .unwrap(),
    );
    let before = exchanger.clone();
    assert_eq!(
        exchanger.lateral_and_miscellaneous_connections(500_000, -2_000_000, NUSSELT),
        Err(TuasLibError::DimensionMismatch)
    );
    assert_eq!(exchanger, before);
    assert_eq!(exchanger.duplicate(), before);
    assert_eq!(flow(&exchanger.tube_side_fluid_array_for_single_tube), 0);
    assert_eq!(flow(&exchanger.shell_side_fluid_array), 0);
    assert_eq!(lateral(&exchanger.tube_side_fluid_array_for_single_tube), vec![0; 4]);
    assert_eq!(lateral(&exchanger.inner_pipe_shell_array_for_single_tube), vec![0; 4]);
    assert_eq!(lateral(&exchanger.shell_side_fluid_array), vec![0; 4]);
    assert_eq!(lateral(&exchanger.insulation_array), vec![0; 4]);
    assert_eq!(
        exchanger.link_layers_laterally(1, 1, 1, 1, 1),
        Err(TuasLibError::DimensionMismatch)
    );
    assert_eq!(lateral(&exchanger.tube_side_fluid_array_for_single_tube), vec![0; 4]);

    // a solid in the place of the shell side fluid
    let mut exchanger = heat_exchanger(true);
    exchanger.shell_side_fluid_array = tube_wall(300_000);
    assert_eq!(
        exchanger.lateral_and_miscellaneous_connections(500_000, -2_000_000, NUSSELT),
        Err(TuasLibError::TypeConversionError)
    );
    assert_eq!(
        exchanger.get_air_to_outer_sthe_layer_nodal_conductance(10_000_000),
        Err(TuasLibError::TypeConversionError)
    );
    assert_eq!(
        exchanger.get_shell_side_to_tubes_nusselt_data(true),
        Err(TuasLibError::TypeConversionError)
    );
    assert_eq!(
        exchanger.set_shell_side_total_mass_flowrate(1),
        Err(TuasLibError::TypeConversionError)
    );
    assert_eq!(flow(&exchanger.tube_side_fluid_array_for_single_tube), 0);

    // a boundary condition in the place of the insulation counts only where
    // there is insulation
    let mut exchanger = heat_exchanger(true);
    exchanger.insulation_array = HeatTransferEntity::from(BCType::new_adiabatic_bc());
    assert_eq!(
        exchanger.lateral_and_miscellaneous_connections(500_000, -2_000_000, NUSSELT),
        Err(TuasLibError::TypeConversionError)
    );
    assert_eq!(
        exchanger.zero_power_bc_axial_connection(),
        Err(TuasLibError::TypeConversionError)
    );
    assert_eq!(
        exchanger.advance_timestep(10),
        Ok(())
    );
    exchanger.heat_exchanger_has_insulation = false;
    assert_eq!(
        exchanger.lateral_and_miscellaneous_connections(500_000, -2_000_000, NUSSELT),
        Ok(())
    );
    let copy = exchanger.duplicate();
    assert_eq!(lateral(&copy.outer_shell), vec![-45_252_695_000; 4]);
}

#[test]
fn outer_shell_conductance_is_taken_on_the_outer_shell() {
    let mut exchanger = heat_exchanger(true);
    let before = exchanger
        .get_shell_side_fluid_to_outer_pipe_shell_nodal_conductance(5_000_000)
        .unwrap();
    // other tubes leave it as it is
    exchanger.tube_side_id = 20_000;
    exchanger.tube_side_od = 25_000;
    exchanger.shape_factors.tube_inner_half = 1;
    exchanger.shape_factors.tube_outer_half = 1;
    assert_eq!(
        exchanger.get_shell_side_fluid_to_outer_pipe_shell_nodal_conductance(5_000_000),
        Ok(before)
    );
    // another outer shell does not
    exchanger.shell_side_id = 90_000;
    let narrower = exchanger
        .get_shell_side_fluid_to_outer_pipe_shell_nodal_conductance(5_000_000)
        .unwrap();
    assert!(narrower < before);
}

#[test]
fn layers_gain_together_what_the_air_hands_the_outer_layer() {
    for insulated in [true, false] {
        let mut exchanger = heat_exchanger(insulated);
        let to_air = exchanger
            .get_air_to_outer_sthe_layer_nodal_conductance(10_000_000)
            .unwrap();
        assert_eq!(to_air, if insulated { 319_861 } else { 862_557 });
        let outer_temperature: i128 = if insulated { 295_000 } else { 305_000 };
        exchanger
            .lateral_and_miscellaneous_connections(500_000, -2_000_000, NUSSELT)
            .unwrap();
        for i in 0..4 {
            let tubes = lateral(&exchanger.tube_side_fluid_array_for_single_tube)[i]
                + lateral(&exchanger.inner_pipe_shell_array_for_single_tube)[i];
            let mut gain = 10 * tubes
                + lateral(&exchanger.shell_side_fluid_array)[i]
                + lateral(&exchanger.outer_shell)[i];
            if insulated {
                gain += lateral(&exchanger.insulation_array)[i];
            }
            assert_eq!(gain, to_air as i128 * (290_000 - outer_temperature));
        }
    }
}
