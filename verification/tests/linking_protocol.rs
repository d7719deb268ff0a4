use tuas_boussinesq_solver::array_control_vol::fluid_array::FluidArray;
use tuas_boussinesq_solver::array_control_vol::power_fractions::PowerFractions;
use tuas_boussinesq_solver::array_control_vol::solid_column::SolidColumn;
use tuas_boussinesq_solver::boundary_conditions::BCType;
use tuas_boussinesq_solver::boussinesq_thermophysical_properties::material::Material;
use tuas_boussinesq_solver::heat_transfer_correlations::heat_transfer_interactions::HeatTransferInteractionType;
use tuas_boussinesq_solver::pre_built_components::heat_transfer_entities::{
    AxialEnd, CVType, HeatTransferEntity,
};
use tuas_boussinesq_solver::single_control_vol::SingleCVNode;
use tuas_boussinesq_solver::tuas_lib_error::TuasLibError;

fn oil() -> Material {
    // 250 K to 400 K, 1000 kg/m3, 2000 J/(kg K), 0.5 W/(m K), 1 mPa s
    Material::with_constant_properties(
        250_000,
        400_000,
        1_000_000,
        2_000_000,
        500_000,
        Some(1_000_000),
    )
    .unwrap()
}

fn steel() -> Material {
    // 250 K to 1000 K, 8000 kg/m3, 500 J/(kg K), 16 W/(m K)
    Material::with_constant_properties(250_000, 1_000_000, 8_000_000, 500_000, 16_000_000, None)
        .unwrap()
}

/// A node of 50 g of oil.
fn node(temperature: i64) -> HeatTransferEntity {
    SingleCVNode::new(oil(), 101_325, 50_000_000, temperature)
        .unwrap()
        .into_entity()
}

trait IntoEntity {
    fn into_entity(self) -> HeatTransferEntity;
}

impl IntoEntity for SingleCVNode {
    fn into_entity(self) -> HeatTransferEntity {
        HeatTransferEntity::from(CVType::SingleCV(self))
    }
}

impl IntoEntity for FluidArray {
    fn into_entity(self) -> HeatTransferEntity {
        HeatTransferEntity::from(CVType::FluidArrayCV(self))
    }
}

impl IntoEntity for SolidColumn {
    fn into_entity(self) -> HeatTransferEntity {
        HeatTransferEntity::from(CVType::SolidArrayCV(self))
    }
}

/// 1 kg of oil in a pipe of 1 m, in `inner_nodes + 2` nodes.
fn pipe(temperature: i64, inner_nodes: usize) -> HeatTransferEntity {
    FluidArray::new_odd_shaped_pipe(
        1_000_000,
        35_682,
        1_000_000_000,
        temperature,
        101_325,
        oil(),
        inner_nodes,
    )
    .unwrap()
    .into_entity()
}

fn bar(temperature: i64, inner_nodes: usize) -> HeatTransferEntity {
    SolidColumn::new_block(1_000_000, 10_000, 10_000, temperature, 101_325, steel(), inner_nodes)
        .unwrap()
        .into_entity()
}

fn front(entity: &HeatTransferEntity) -> i128 {
    entity.column().unwrap().front_heat_rate()
}

fn back(entity: &HeatTransferEntity) -> i128 {
    entity.column().unwrap().back_heat_rate()
}

fn enthalpy(entity: &HeatTransferEntity) -> Vec<i128> {
    entity.column().unwrap().enthalpy_vector()
}

fn conductance(value: i64) -> HeatTransferInteractionType {
    HeatTransferInteractionType::UserSpecifiedThermalConductance(value)
}

#[test]
fn two_nodes_linked_by_conduction_conserve_energy() {
    let mut cold = node(300_000);
    let mut hot = node(350_000);
    assert_eq!(enthalpy(&cold), vec![2_685_000_000_000_000]);
    assert_eq!(enthalpy(&hot), vec![7_685_000_000_000_000]);
    // 2 W/K across 50 K carry 100 W
    assert_eq!(cold.link_to_front(&mut hot, conductance(2_000_000)), Ok(()));
    assert_eq!(front(&cold), 100_000_000_000);
    assert_eq!(back(&hot), -100_000_000_000);
    assert_eq!(back(&cold), 0);
    assert_eq!(front(&hot), 0);
    assert_eq!(cold.advance_timestep(1000), Ok(()));
    assert_eq!(hot.advance_timestep(1000), Ok(()));
    // 100 J into 50 g of 2000 J/(kg K) is 1 K
    assert_eq!(enthalpy(&cold), vec![2_785_000_000_000_000]);
    assert_eq!(enthalpy(&hot), vec![7_585_000_000_000_000]);
    let change_of_cold = enthalpy(&cold)[0] - 2_685_000_000_000_000;
    let change_of_hot = enthalpy(&hot)[0] - 7_685_000_000_000_000;
    assert_eq!(change_of_cold + change_of_hot, 0);
    assert_eq!(cold.get_temperature_vector().unwrap(), vec![301_000]);
    assert_eq!(hot.get_temperature_vector().unwrap(), vec![349_000]);
    // the links are consumed
    assert_eq!(front(&cold), 0);
    assert_eq!(back(&hot), 0);
}

#[test]
fn conduction_conserves_energy_for_many_conductances_and_temperatures() {
    for conductance_value in [1, 7, 999, 123_456, 2_000_000, 9_999_999] {
        for (first, second) in [(300_000, 300_000), (250_001, 399_999), (399_000, 251_000)] {
            for timestep in [1, 10, 333] {
                let mut a = node(first);
                let mut b = node(second);
                let before = enthalpy(&a)[0] + enthalpy(&b)[0];
                a.link_to_back(&mut b, conductance(conductance_value)).unwrap();
                a.advance_timestep(timestep).unwrap();
                b.advance_timestep(timestep).unwrap();
                assert_eq!(enthalpy(&a)[0] + enthalpy(&b)[0], before);
            }
        }
    }
}

#[test]
fn a_later_link_to_an_end_replaces_the_earlier_one() {
    let mut cold = node(300_000);
    let mut hot = node(350_000);
    let mut hotter = node(400_000);
    cold.link_to_front(&mut hot, conductance(2_000_000)).unwrap();
    cold.link_to_front(&mut hotter, conductance(1_000_000)).unwrap();
    // only the second link counts at the front of the cold node
    assert_eq!(front(&cold), 100_000_000_000);
    assert_eq!(back(&hotter), -100_000_000_000);
    cold.link_to_front(&mut hotter, conductance(3_000_000)).unwrap();
    assert_eq!(front(&cold), 300_000_000_000);
    assert_eq!(back(&hotter), -300_000_000_000);
    // the other end is a link of its own
    cold.link_to_back(&mut hot, conductance(1_000_000)).unwrap();
    assert_eq!(back(&cold), 50_000_000_000);
    assert_eq!(front(&cold), 300_000_000_000);
    assert_eq!(front(&hot), -50_000_000_000);
    // the boundary through which no heat passes takes the place of a link
    let mut adiabatic = HeatTransferEntity::from(BCType::new_adiabatic_bc());
    cold.link_to_front(&mut adiabatic, HeatTransferInteractionType::UserSpecifiedHeatAddition)
        .unwrap();
    assert_eq!(front(&cold), 0);
    assert_eq!(back(&cold), 50_000_000_000);
}

#[test]
fn a_boundary_condition_has_no_end_to_link() {
    let mut boundary = HeatTransferEntity::from(BCType::new_const_temperature(350_000));
    let mut cold = node(300_000);
    let before = cold.clone();
    assert_eq!(
        boundary.link_to_front(&mut cold, conductance(2_000_000)),
        Err(TuasLibError::TypeConversionError)
    );
    assert_eq!(cold, before);
    assert_eq!(cold.duplicate(), before);
    assert_eq!(
        boundary.link(AxialEnd::Back, &mut cold, conductance(2_000_000)),
        Err(TuasLibError::TypeConversionError)
    );
    assert_eq!(front(&cold), 0);
    assert_eq!(back(&cold), 0);
    // as the second entity it serves
    assert_eq!(cold.link_to_front(&mut boundary, conductance(2_000_000)), Ok(()));
    assert_eq!(front(&cold), 100_000_000_000);
    assert_eq!(boundary.get_temperature_vector().unwrap(), vec![350_000]);
}

#[test]
fn boundary_conditions_state_temperature_power_or_heat_flux() {
    let mut cold = node(300_000);
    let mut power = HeatTransferEntity::from(BCType::new_const_heat_addition(123_000_000_000));
    let mut flux = HeatTransferEntity::from(BCType::new_const_heat_flux(1_000_000_000));
    let mut temperature = HeatTransferEntity::from(BCType::new_const_temperature(275_000));
    let addition = HeatTransferInteractionType::UserSpecifiedHeatAddition;
    let through_area = HeatTransferInteractionType::UserSpecifiedHeatFluxCustomArea(500_000_000_000);

    assert_eq!(cold.link_to_front(&mut power, addition), Ok(()));
    assert_eq!(front(&cold), 123_000_000_000);
    // 1000 W/m2 through 0.5 m2
    assert_eq!(cold.link_to_back(&mut flux, through_area), Ok(()));
    assert_eq!(back(&cold), 500_000_000_000);
    // 1 W/K towards 25 K less
    assert_eq!(cold.link_to_back(&mut temperature, conductance(1_000_000)), Ok(()));
    assert_eq!(back(&cold), -25_000_000_000);

    // each interaction needs the boundary condition that states its quantity
    let before = (front(&cold), back(&cold));
    for interaction in [through_area, conductance(1)] {
        assert_eq!(
            cold.link_to_front(&mut power, interaction),
            Err(TuasLibError::TypeConversionError)
        );
        assert_eq!((front(&cold), back(&cold)), before);
    }
    for interaction in [addition, conductance(1)] {
        assert_eq!(
            cold.link_to_front(&mut flux, interaction),
            Err(TuasLibError::TypeConversionError)
        );
        assert_eq!((front(&cold), back(&cold)), before);
    }
    for interaction in [addition, through_area] {
        assert_eq!(
            cold.link_to_front(&mut temperature, interaction),
            Err(TuasLibError::TypeConversionError)
        );
        assert_eq!((front(&cold), back(&cold)), before);
    }
    // a stated power or heat flux comes from a boundary condition only
    let mut hot = node(350_000);
    assert_eq!(
        cold.link_to_front(&mut hot, addition),
        Err(TuasLibError::TypeConversionError)
    );
    assert_eq!(
        cold.link_to_front(&mut hot, through_area),
        Err(TuasLibError::TypeConversionError)
    );
    assert_eq!((front(&cold), back(&cold)), before);
    assert_eq!((front(&hot), back(&hot)), (0, 0));
}

#[test]
fn advection_carries_the_enthalpy_of_the_upstream_side() {
    let mut upstream = pipe(300_000, 1);
    let mut downstream = pipe(350_000, 1);
    // 10 g/s from the first entity to the second
    let forward = HeatTransferInteractionType::new_advection_interaction(10_000, 1_000_000, 1_000_000);
    let reversed = HeatTransferInteractionType::new_advection_interaction(-10_000, 1_000_000, 1_000_000);

    // specific enthalpy of the oil: 53.7 kJ/kg at 300 K, 153.7 kJ/kg at 350 K
    assert_eq!(upstream.link_to_front(&mut downstream, forward), Ok(()));
    assert_eq!(front(&upstream), -537_000_000_000);
    assert_eq!(back(&downstream), 537_000_000_000);

    // the same flow reversed comes from the other side
    assert_eq!(upstream.link_to_front(&mut downstream, reversed), Ok(()));
    assert_eq!(front(&upstream), 1_537_000_000_000);
    assert_eq!(back(&downstream), -1_537_000_000_000);

    // at the back the entity that links is the second of the two
    assert_eq!(downstream.link_to_back(&mut upstream, forward), Ok(()));
    assert_eq!(back(&downstream), 537_000_000_000);
    assert_eq!(front(&upstream), -537_000_000_000);
    assert_eq!(downstream.link_to_back(&mut upstream, reversed), Ok(()));
    assert_eq!(back(&downstream), -1_537_000_000_000);
    assert_eq!(front(&upstream), 1_537_000_000_000);
}

#[test]
fn advection_from_a_boundary_needs_its_temperature() {
    let mut array = pipe(300_000, 1);
    let mut inlet = HeatTransferEntity::from(BCType::new_const_temperature(320_000));
    let mut outlet = HeatTransferEntity::from(BCType::new_adiabatic_bc());
    let flow = HeatTransferInteractionType::new_advection_interaction(10_000, 1_000_000, 1_000_000);
    let reversed = HeatTransferInteractionType::new_advection_interaction(-10_000, 1_000_000, 1_000_000);
    // the inlet at the back: 10 g/s of 93.7 kJ/kg
    assert_eq!(array.link_to_back(&mut inlet, flow), Ok(()));
    assert_eq!(back(&array), 937_000_000_000);
    // the outlet at the front: the flow leaves with the enthalpy of the array
    assert_eq!(array.link_to_front(&mut outlet, flow), Ok(()));
    assert_eq!(front(&array), -537_000_000_000);
    // a flow out of a boundary that states no temperature has no enthalpy
    assert_eq!(
        array.link_to_front(&mut outlet, reversed),
        Err(TuasLibError::TypeConversionError)
    );
    assert_eq!(front(&array), -537_000_000_000);
    // nor has a flow out of a boundary whose temperature the fluid does not reach
    let mut too_hot = HeatTransferEntity::from(BCType::new_const_temperature(500_000));
    assert_eq!(
        array.link_to_back(&mut too_hot, flow),
        Err(TuasLibError::ThermophysicalPropertyTemperatureRangeError)
    );
    assert_eq!(back(&array), 937_000_000_000);
}

#[test]
fn arrays_link_at_their_facing_end_nodes() {
    let mut first = bar(300_000, 2);
    let mut second = bar(350_000, 2);
    first.link_to_front(&mut second, conductance(1_000_000)).unwrap();
    assert_eq!(front(&first), 50_000_000_000);
    assert_eq!(back(&second), -50_000_000_000);
    let before: i128 = enthalpy(&first).iter().sum::<i128>() + enthalpy(&second).iter().sum::<i128>();
    first.advance_timestep(100).unwrap();
    second.advance_timestep(100).unwrap();
    let after: i128 = enthalpy(&first).iter().sum::<i128>() + enthalpy(&second).iter().sum::<i128>();
    assert_eq!(before, after);
    // only the end nodes changed
    let first_temperatures = first.get_temperature_vector().unwrap();
    let second_temperatures = second.get_temperature_vector().unwrap();
    assert_eq!(first_temperatures[0], 300_000);
    assert_eq!(first_temperatures[2], 300_000);
    assert!(first_temperatures[3] > 300_000);
    assert!(second_temperatures[0] < 350_000);
    assert_eq!(second_temperatures[1], 350_000);
}

#[test]
fn reading_temperatures_twice_returns_the_same() {
    let mut array = pipe(300_000, 3);
    let mut hot = node(350_000);
    array.link_to_front(&mut hot, conductance(1_000_000)).unwrap();
    array
        .lateral_link_new_temperature_vector_avg_conductance(1_000_000, vec![310_000; 5])
        .unwrap();
    let before = array.clone();
    let first = array.get_temperature_vector().unwrap();
    assert_eq!(array, before);
    let second = array.get_temperature_vector().unwrap();
    assert_eq!(array, before);
    assert_eq!(first, vec![300_000; 5]);
    assert_eq!(first, second);
    // the reading left the links in place
    assert_eq!(front(&array), 50_000_000_000);
    assert_eq!(
        array.column().unwrap().lateral_heat_rate_vector(),
        vec![10_000_000_000; 5]
    );
    assert_eq!(array.try_get_bulk_temperature(), Ok(300_000));
    let boundary = HeatTransferEntity::from(BCType::new_const_heat_addition(5));
    assert_eq!(
        boundary.try_get_bulk_temperature(),
        Err(TuasLibError::TypeConversionError)
    );
    let mut boundary = boundary;
    assert_eq!(
        boundary.get_temperature_vector(),
        Err(TuasLibError::TypeConversionError)
    );
}

#[test]
fn lateral_links_need_one_value_for_each_node() {
    let mut array = pipe(300_000, 3);
    for length in [0, 1, 4, 6, 100] {
        assert_eq!(
            array.lateral_link_new_temperature_vector_avg_conductance(
                1_000_000,
                vec![310_000; length]
            ),
            Err(TuasLibError::DimensionMismatch)
        );
        assert_eq!(
            array.lateral_link_new_power_vector(
                1_000_000_000,
                PowerFractions::uniform(length, 200_000).unwrap()
            ),
            Err(TuasLibError::DimensionMismatch)
        );
    }
    assert_eq!(array.column().unwrap().lateral_heat_rate_vector(), vec![0; 5]);
    assert_eq!(array.get_temperature_vector().unwrap(), vec![300_000; 5]);
    // shares that do not sum to one
    assert_eq!(
        array.lateral_link_new_power_vector(
            1_000_000_000,
            PowerFractions::uniform(5, 100_000).unwrap()
        ),
        Err(TuasLibError::DimensionMismatch)
    );
    assert_eq!(array.column().unwrap().lateral_heat_rate_vector(), vec![0; 5]);
    // shares of 10, 20, 30, 30 and 10 percent of 1 W
    assert_eq!(
        array.lateral_link_new_power_vector(
            1_000_000_000,
            PowerFractions::from_vec(vec![100_000, 200_000, 300_000, 300_000, 100_000])
        ),
        Ok(())
    );
    assert_eq!(
        array.column().unwrap().lateral_heat_rate_vector(),
        vec![100_000_000, 200_000_000, 300_000_000, 300_000_000, 100_000_000]
    );
    // a boundary condition has no nodes
    let mut boundary = HeatTransferEntity::from(BCType::new_const_temperature(300_000));
    assert_eq!(
        boundary.lateral_link_new_temperature_vector_avg_conductance(1, vec![300_000]),
        Err(TuasLibError::TypeConversionError)
    );
    assert_eq!(
        boundary.lateral_link_new_power_vector(1, PowerFractions::uniform(1, 1_000_000).unwrap()),
        Err(TuasLibError::TypeConversionError)
    );
    assert_eq!(boundary.advance_timestep(1000), Ok(()));
}

#[test]
fn a_heat_rate_that_leaves_128_bits_is_not_representable() {
    let mut array = pipe(300_000, 0);
    for _ in 0..2 {
        array
            .lateral_link_new_temperature_vector_avg_conductance(
                i64::MAX,
                vec![i64::MAX, i64::MAX],
            )
            .unwrap();
    }
    let before = array.column().unwrap().lateral_heat_rate_vector();
    assert_eq!(
        array.lateral_link_new_temperature_vector_avg_conductance(
            i64::MAX,
            vec![300_000, i64::MAX]
        ),
        Err(TuasLibError::ValueNotRepresentable)
    );
    assert_eq!(array.column().unwrap().lateral_heat_rate_vector(), before);
}

#[test]
fn a_step_beyond_the_range_of_the_material_fails_and_changes_nothing() {
    let mut cold = node(399_000);
    let mut power = HeatTransferEntity::from(BCType::new_const_heat_addition(200_000_000_000));
    cold.link_to_front(&mut power, HeatTransferInteractionType::UserSpecifiedHeatAddition)
        .unwrap();
    // 200 W for one second heat the node by 2 K, past 400 K
    assert_eq!(
        cold.advance_timestep(1000),
        Err(TuasLibError::ThermophysicalPropertyTemperatureRangeError)
    );
    assert_eq!(cold.get_temperature_vector().unwrap(), vec![399_000]);
    assert_eq!(front(&cold), 200_000_000_000);
    // half a second stays within
    assert_eq!(cold.advance_timestep(500), Ok(()));
    assert_eq!(cold.get_temperature_vector().unwrap(), vec![400_000]);
    assert_eq!(front(&cold), 0);
}

#[test]
fn set_replaces_the_state_of_an_entity_of_the_same_shape() {
    let mut array = pipe(300_000, 3);
    assert_eq!(array.set(pipe(350_000, 3)), Ok(()));
    assert_eq!(array.get_temperature_vector().unwrap(), vec![350_000; 5]);
    assert_eq!(array.set(pipe(300_000, 2)), Err(TuasLibError::DimensionMismatch));
    assert_eq!(array.set(bar(300_000, 3)), Err(TuasLibError::TypeConversionError));
    assert_eq!(array.set(node(300_000)), Err(TuasLibError::TypeConversionError));
    assert_eq!(
        array.set(HeatTransferEntity::from(BCType::new_adiabatic_bc())),
        Err(TuasLibError::TypeConversionError)
    );
    assert_eq!(array.get_temperature_vector().unwrap(), vec![350_000; 5]);
    let mut boundary = HeatTransferEntity::from(BCType::new_const_temperature(300_000));
    assert_eq!(
        boundary.set(HeatTransferEntity::from(BCType::new_const_temperature(310_000))),
        Ok(())
    );
    assert_eq!(boundary.get_temperature_vector().unwrap(), vec![310_000]);
    assert_eq!(boundary.set(node(300_000)), Err(TuasLibError::TypeConversionError));
    // clone, modify, write back
    let mut copy = array.duplicate();
    copy.advance_timestep(10).unwrap();
    assert_eq!(array.set(copy), Ok(()));
}

#[test]
fn conversions_tell_the_kinds_of_entities_apart() {
    assert!(pipe(300_000, 1).try_into_fluid_array().is_ok());
    assert!(matches!(
        pipe(300_000, 1).try_into_solid_column(),
        Err(TuasLibError::TypeConversionError)
    ));
    assert!(matches!(
        pipe(300_000, 1).try_into_single_cv(),
        Err(TuasLibError::TypeConversionError)
    ));
    assert!(bar(300_000, 1).try_into_solid_column().is_ok());
    assert!(matches!(
        bar(300_000, 1).try_into_fluid_array(),
        Err(TuasLibError::TypeConversionError)
    ));
    assert!(node(300_000).try_into_single_cv().is_ok());
    assert!(matches!(
        node(300_000).try_into_boundary_condition(),
        Err(TuasLibError::TypeConversionError)
    ));
    let boundary = HeatTransferEntity::from(BCType::new_const_temperature(300_000));
    assert_eq!(
        boundary.try_into_boundary_condition(),
        Ok(BCType::UserSpecifiedTemperature(300_000))
    );
    assert!(pipe(300_000, 1).as_fluid_array().is_ok());
    assert!(pipe(300_000, 1).as_solid_column().is_err());
    assert!(bar(300_000, 1).as_solid_column().is_ok());
    assert!(bar(300_000, 1).as_fluid_array().is_err());
    let mut solid = bar(300_000, 1);
    assert_eq!(
        solid.set_mass_flowrate(1),
        Err(TuasLibError::TypeConversionError)
    );
    let mut fluid = pipe(300_000, 1);
    assert_eq!(fluid.set_mass_flowrate(7), Ok(()));
    assert_eq!(fluid.as_fluid_array().ok().unwrap().get_mass_flowrate(), 7);
    assert_eq!(AxialEnd::Front.opposite(), AxialEnd::Back);
    assert_eq!(AxialEnd::Back.opposite(), AxialEnd::Front);
}

#[test]
fn arrays_are_made_of_the_material_that_fills_them() {
    let array = FluidArray::new_odd_shaped_pipe(
        1_000_000,
        35_682,
        1_000_000_000,
        300_000,
        101_325,
        oil(),
        3,
    )
    .unwrap();
    // 1 kg of oil in five nodes
    assert_eq!(array.column().number_of_nodes(), 5);
    assert_eq!(array.column().node_mass(), 200_000_000);
    assert_eq!(array.get_component_length(), 1_000_000);
    assert_eq!(array.get_hydraulic_diameter(), 35_682);
    assert_eq!(array.get_cross_sectional_area(), 1_000_000_000);
    assert_eq!(array.get_mass_flowrate(), 0);
    assert_eq!(array.pressure_control_volume(), 101_325);
    assert_eq!(array.material_control_volume().try_get_cp(300_000), Ok(2_000_000));
    // a shell of 38.1 mm by 40 mm, 1.6383 m long, of steel
    let shell =
        SolidColumn::new_cylindrical_shell(1_638_300, 38_100, 40_000, 300_000, 101_325, steel(), 8)
            .unwrap();
    // pi / 4 * (0.04^2 - 0.0381^2) m2 = 116.545 mm2
    assert_eq!(shell.get_cross_sectional_area(), 116_545_233);
    // 8000 kg/m3 * 116.545 mm2 * 1.6383 m = 1.5275 kg, in ten nodes
    assert_eq!(shell.column().node_mass(), 152_748_844);
    assert_eq!(shell.column().number_of_nodes(), 10);
    let block =
        SolidColumn::new_block(1_638_300, 1_219, 25_400, 300_000, 101_325, steel(), 0).unwrap();
    assert_eq!(block.get_cross_sectional_area(), 30_962_600);
    assert_eq!(block.column().number_of_nodes(), 2);
    // what cannot be made
    assert!(matches!(
        FluidArray::new_odd_shaped_pipe(1_000_000, 35_682, 1_000_000_000, 300_000, 101_325, steel(), 3),
        Err(TuasLibError::TypeConversionError)
    ));
    assert!(matches!(
        FluidArray::new_odd_shaped_pipe(1_000_000, 35_682, 1_000_000_000, 200_000, 101_325, oil(), 3),
        Err(TuasLibError::ThermophysicalPropertyTemperatureRangeError)
    ));
    assert!(matches!(
        FluidArray::new_odd_shaped_pipe(1_000_000, 35_682, 1_000_000_000, 300_000, 101_325, oil(), usize::MAX),
        Err(TuasLibError::DimensionMismatch)
    ));
    assert!(matches!(
        FluidArray::new_odd_shaped_pipe(0, 35_682, 1_000_000_000, 300_000, 101_325, oil(), 3),
        Err(TuasLibError::ValueNotRepresentable)
    ));
    assert!(matches!(
        SingleCVNode::new(oil(), 101_325, 0, 300_000),
        Err(TuasLibError::ValueNotRepresentable)
    ));
    assert!(matches!(
        SingleCVNode::new(oil(), 101_325, 1, 401_000),
        Err(TuasLibError::ThermophysicalPropertyTemperatureRangeError)
    ));
    let single = SingleCVNode::new(oil(), 101_325, 50_000_000, 300_000).unwrap();
    assert_eq!(single.get_temperature(), 300_000);
}

#[test]
fn a_heat_flux_reversed_is_a_heat_rate_reversed() {
    // 1.5 W/m2 through 0.001001 mm2: 1.5015 nW, rounded towards zero
    let through_area = HeatTransferInteractionType::UserSpecifiedHeatFluxCustomArea(1_001);
    let mut cold = node(300_000);
    let mut heating = HeatTransferEntity::from(BCType::new_const_heat_flux(1_500_000));
    let mut cooling = HeatTransferEntity::from(BCType::new_const_heat_flux(-1_500_000));
    assert_eq!(cold.link_to_front(&mut heating, through_area), Ok(()));
    assert_eq!(front(&cold), 1);
    assert_eq!(cold.link_to_front(&mut cooling, through_area), Ok(()));
    assert_eq!(front(&cold), -1);
}
