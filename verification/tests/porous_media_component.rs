use tuas_boussinesq_solver::array_control_vol::fluid_array::FluidArray;
use tuas_boussinesq_solver::array_control_vol::solid_column::SolidColumn;
use tuas_boussinesq_solver::boundary_conditions::BCType;
use tuas_boussinesq_solver::boussinesq_thermophysical_properties::material::Material;
use tuas_boussinesq_solver::boussinesq_thermophysical_properties::property_curve::PropertyCurve;
use tuas_boussinesq_solver::heat_transfer_correlations::heat_transfer_interactions::HeatTransferInteractionType;
use tuas_boussinesq_solver::heat_transfer_correlations::nusselt_number_correlations::GnielinskiData;
use tuas_boussinesq_solver::pre_built_components::heat_transfer_entities::{
    CVType, HeatTransferEntity,
};
use tuas_boussinesq_solver::pre_built_components::insulated_porous_media_fluid_components::{
    try_get_bulk_conductivity_of_solid, try_get_nodal_layer_conductance, try_get_temperatures,
    InsulatedPorousMediaFluidComponent,
};
use tuas_boussinesq_solver::tuas_lib_error::TuasLibError;

fn oil() -> Material {
    // 250 K to 400 K, 1000 kg/m3, 2000 J/(kg K), 0.5 W/(m K), 1 mPa s
    Material::with_constant_properties(
        250_000,
        400_000,
        1_000_000,
        2_000_000,
        500_000,
        Some(1_000_000),
    )
    .unwrap()
}

fn steel() -> Material {
    // 250 K to 1000 K, 8000 kg/m3, 500 J/(kg K), 16 W/(m K)
    Material::with_constant_properties(250_000, 1_000_000, 8_000_000, 500_000, 16_000_000, None)
        .unwrap()
}

fn fiberglass() -> Material {
    // 250 K to 1000 K, 20 kg/m3, 800 J/(kg K), 0.04 W/(m K)
    Material::with_constant_properties(250_000, 1_000_000, 20_000, 800_000, 40_000, None).unwrap()
}

fn solid(column: SolidColumn) -> HeatTransferEntity {
    HeatTransferEntity::from(CVType::SolidArrayCV(column))
}

/// A mixer of 1 m in four nodes: oil at 300 K in a steel shell at 310 K
/// with insulation at 295 K, in air of 290 K.
fn mixer() -> InsulatedPorousMediaFluidComponent {
    InsulatedPorousMediaFluidComponent {
        number_of_nodes: 4,
        interior_solid_array_for_porous_media: solid(
            SolidColumn::new_block(1_000_000, 1_219, 25_400, 300_000, 101_325, steel(), 2).unwrap(),
        ),
        pipe_shell: solid(
            SolidColumn::new_cylindrical_shell(
                1_000_000, 38_100, 40_000, 310_000, 101_325, steel(), 2,
            )
            .unwrap(),
        ),
        pipe_fluid_array: HeatTransferEntity::from(CVType::FluidArrayCV(
            FluidArray::new_odd_shaped_pipe(
                1_000_000,
                20_000,
                1_000_000_000,
                300_000,
                101_325,
                oil(),
                2,
            )
            .unwrap(),
        )),
        insulation_array: solid(
            SolidColumn::new_cylindrical_shell(
                1_000_000, 40_000, 140_000, 295_000, 101_325, fiberglass(), 2,
            )
            .unwrap(),
        ),
        ambient_temperature: 290_000,
        heat_transfer_to_ambient: 10_000_000,
        flow_area: 1_000_000_000,
        thermal_conductance_lengthscale_insulation_to_ambient: 9_000_000,
        convection_heat_transfer_area_insulation_to_ambient: 439_822_971_560,
        thermal_conductance_lengthscale_insulation_to_insulation_pipe_interface: 12_000_000,
        thermal_conductance_lengthscale_pipe_shell_to_insulation_pipe_interface: 258_000_000,
    }
}

fn lateral(entity: &HeatTransferEntity) -> Vec<i128> {
    entity.column().unwrap().lateral_heat_rate_vector()
}

fn ends(entity: &HeatTransferEntity) -> (i128, i128) {
    let column = entity.column().unwrap();
    (column.back_heat_rate(), column.front_heat_rate())
}

#[test]
fn conductances_between_the_layers() {
    let mut mixer = mixer();
    // film of 1.099557 W/K in series with 0.09 W/K of insulation
    assert_eq!(mixer.get_air_insulation_shell_conductance_mx10(10_000_000), Ok(83_190));
    // 0.12 W/K of insulation in series with 1032 W/K of steel
    assert_eq!(mixer.get_steel_to_fiberglass_conductance_mx10_nodal(), Ok(119_986));
    // Nu = 4.36: h = 109 W/(m2 K) on 0.0299 m2, in series with 1020 W/K of steel
    assert_eq!(
        mixer.get_therminol_node_steel_shell_conductance_mx10(4_360_000),
        Ok(3_251_288)
    );
    assert_eq!(mixer.get_therminol_node_steel_shell_conductance_mx10(0), Ok(0));
    assert_eq!(mixer.number_of_nodes(), 4);
    assert_eq!(try_get_bulk_conductivity_of_solid(&mixer.pipe_shell), Ok(16_000_000));
    assert_eq!(
        try_get_bulk_conductivity_of_solid(&mixer.pipe_fluid_array),
        Err(TuasLibError::TypeConversionError)
    );
    assert_eq!(try_get_nodal_layer_conductance(40_000, 9_000_000, 4), Ok(90_000));
    assert_eq!(
        try_get_nodal_layer_conductance(40_000, 9_000_000, 0),
        Err(TuasLibError::ValueNotRepresentable)
    );
    assert_eq!(try_get_temperatures(&mixer.pipe_shell), Ok(vec![310_000; 4]));
}

#[test]
fn reynolds_number_and_nusselt_data() {
    let mut mixer = mixer();
    // 0.1 kg/s * 0.02 m / (0.001 m2 * 0.001 Pa s) = 2000
    assert_eq!(mixer.mx10_hydraulic_diameter_reynolds(100_000, 300_000), Ok(2_000_000_000));
    assert_eq!(
        mixer.mx10_hydraulic_diameter_reynolds(100_000, 401_000),
        Err(TuasLibError::ThermophysicalPropertyTemperatureRangeError)
    );
    // at rest
    assert_eq!(
        mixer.get_nusselt_data_mx10(),
        Ok(GnielinskiData {
            reynolds: 0,
            prandtl_bulk: 4_000_000,
            prandtl_wall: 4_000_000,
            darcy_friction_factor: 0,
            length_to_diameter: 50_000_000,
        })
    );
    assert_eq!(mixer.set_mass_flowrate(100_000), Ok(()));
    assert_eq!(
        mixer.get_nusselt_data_mx10(),
        Ok(GnielinskiData {
            reynolds: 2_000_000_000,
            prandtl_bulk: 4_000_000,
            prandtl_wall: 4_000_000,
            darcy_friction_factor: 0,
            length_to_diameter: 50_000_000,
        })
    );
    // a wall hotter than the fluid is described counts with the highest
    // temperature of the fluid, as a wall at exactly that temperature does
    mixer.pipe_shell = solid(
        SolidColumn::new_cylindrical_shell(1_000_000, 38_100, 40_000, 450_000, 101_325, steel(), 2)
            .unwrap(),
    );
    let hot = mixer.get_nusselt_data_mx10();
    assert!(hot.is_ok());
    mixer.pipe_shell = solid(
        SolidColumn::new_cylindrical_shell(1_000_000, 38_100, 40_000, 400_000, 101_325, steel(), 2)
            .unwrap(),
    );
    assert_eq!(mixer.get_nusselt_data_mx10(), hot);
    // and the conductance to a hot wall is finite
    mixer.pipe_shell = solid(
        SolidColumn::new_cylindrical_shell(1_000_000, 38_100, 40_000, 450_000, 101_325, steel(), 2)
            .unwrap(),
    );
    assert_eq!(
        mixer.get_therminol_node_steel_shell_conductance_mx10(4_360_000),
        Ok(3_251_288)
    );
}

#[test]
fn wall_prandtl_number_is_taken_within_the_range_of_the_fluid() {
    // an oil whose viscosity falls from 2 mPa s at 250 K to 0.5 mPa s at 400 K
    let oil = || {
        Material::new(
            PropertyCurve::constant(250_000, 400_000, 1_000_000).unwrap(),
            PropertyCurve::constant(250_000, 400_000, 2_000_000).unwrap(),
            PropertyCurve::constant(250_000, 400_000, 500_000).unwrap(),
            PropertyCurve::new(vec![250_000, 400_000], vec![-46_300_000, 253_700_000]).unwrap(),
            Some(PropertyCurve::new(vec![250_000, 400_000], vec![2_000_000, 500_000]).unwrap()),
        )
        .unwrap()
    };
    let cold_steel = || {
        Material::with_constant_properties(100_000, 1_000_000, 8_000_000, 500_000, 16_000_000, None)
            .unwrap()
    };
    let mut mixer = mixer();
    mixer.pipe_fluid_array = HeatTransferEntity::from(CVType::FluidArrayCV(
        FluidArray::new_odd_shaped_pipe(1_000_000, 20_000, 1_000_000_000, 300_000, 101_325, oil(), 2)
            .unwrap(),
    ));
    let wall_prandtl = |mixer: &mut InsulatedPorousMediaFluidComponent, temperature: i64| {
        mixer.pipe_shell = solid(
            SolidColumn::new_cylindrical_shell(
                1_000_000,
                38_100,
                40_000,
                temperature,
                101_325,
                cold_steel(),
                2,
            )
            .unwrap(),
        );
        mixer.get_nusselt_data_mx10().map(|data| data.prandtl_wall)
    };
    // Pr = 2000 J/(kg K) * viscosity / 0.5 W/(m K)
    assert_eq!(wall_prandtl(&mut mixer, 340_000), Ok(4_400_000));
    assert_eq!(wall_prandtl(&mut mixer, 400_000), Ok(2_000_000));
    assert_eq!(wall_prandtl(&mut mixer, 450_000), Ok(2_000_000));
    assert_eq!(wall_prandtl(&mut mixer, 900_000), Ok(2_000_000));
    assert_eq!(wall_prandtl(&mut mixer, 250_000), Ok(8_000_000));
    assert_eq!(wall_prandtl(&mut mixer, 150_000), Ok(8_000_000));
}

#[test]
fn lateral_connections_link_each_layer_to_its_neighbours() {
    let mut mixer = mixer();
    let mut inlet = HeatTransferEntity::from(BCType::new_const_temperature(320_000));
    mixer
        .pipe_fluid_array
        .link_to_back(
            &mut inlet,
            HeatTransferInteractionType::new_advection_interaction(100_000, 1_000_000, 1_000_000),
        )
        .unwrap();
    assert_eq!(
        mixer.lateral_and_miscellaneous_connections_mx10(100_000, 4_360_000),
        Ok(())
    );
    // insulation: 0.08319 W/K * -5 K + 0.119986 W/K * 15 K
    assert_eq!(lateral(&mixer.insulation_array), vec![1_383_840_000; 4]);
    // shell: 0.119986 W/K * -15 K + 3.251288 W/K * -10 K
    assert_eq!(lateral(&mixer.pipe_shell), vec![-34_312_670_000; 4]);
    // fluid: 3.251288 W/K * 10 K
    assert_eq!(lateral(&mixer.pipe_fluid_array), vec![32_512_880_000; 4]);
    assert_eq!(lateral(&mixer.interior_solid_array_for_porous_media), vec![0; 4]);
    // the flow is set, all ends are adiabatic
    assert_eq!(
        mixer.pipe_fluid_array.as_fluid_array().ok().unwrap().get_mass_flowrate(),
        100_000
    );
    for entity in [
        &mixer.insulation_array,
        &mixer.pipe_shell,
        &mixer.pipe_fluid_array,
        &mixer.interior_solid_array_for_porous_media,
    ] {
        assert_eq!(ends(entity), (0, 0));
    }
    // what the shell loses the insulation and the fluid gain
    let shell: i128 = lateral(&mixer.pipe_shell).iter().sum();
    let fluid: i128 = lateral(&mixer.pipe_fluid_array).iter().sum();
    let insulation_from_shell: i128 = 4 * 119_986 * 15_000;
    assert_eq!(shell + fluid + insulation_from_shell, 0);
    // at every node the four arrays gain together what the air hands the
    // insulation: 0.08319 W/K * -5 K
    for i in 0..4 {
        assert_eq!(
            lateral(&mixer.insulation_array)[i]
                + lateral(&mixer.pipe_shell)[i]
                + lateral(&mixer.pipe_fluid_array)[i]
                + lateral(&mixer.interior_solid_array_for_porous_media)[i],
            83_190 * -5_000
        );
    }

    // the flow enters at the back with 300 K and leaves at the front; these
    // links take the place of the adiabatic ends of the fluid
    let flow = HeatTransferInteractionType::new_advection_interaction(100_000, 1_000_000, 1_000_000);
    let mut inlet = HeatTransferEntity::from(BCType::new_const_temperature(300_000));
    let mut outlet = HeatTransferEntity::from(BCType::new_adiabatic_bc());
    mixer.pipe_fluid_array.link_to_back(&mut inlet, flow).unwrap();
    mixer.pipe_fluid_array.link_to_front(&mut outlet, flow).unwrap();
    assert_eq!(ends(&mixer.pipe_fluid_array), (5_370_000_000_000, -5_370_000_000_000));

    assert_eq!(mixer.advance_timestep(100), Ok(()));
    assert_eq!(lateral(&mixer.pipe_shell), vec![0; 4]);
    let shell_temperatures = mixer.pipe_shell_temperature().unwrap();
    let fluid_temperatures = mixer.pipe_fluid_array_temperature().unwrap();
    let insulation_temperatures = mixer.insulation_array_temperature().unwrap();
    assert!(shell_temperatures.iter().all(|t| *t < 310_000 && *t > 309_900));
    // 32.51288 W for 0.1 s into 0.25 kg of 2000 J/(kg K): 6.5 mK
    assert_eq!(fluid_temperatures, vec![300_006; 4]);
    assert!(insulation_temperatures.iter().all(|t| *t > 295_000));
    assert_eq!(mixer.interior_solid_array_temperature(), Ok(vec![300_000; 4]));
}

#[test]
fn failed_connections_change_nothing() {
    // insulation of another number of nodes than the component
    let mut mixer = mixer();
    mixer.insulation_array = solid(
        SolidColumn::new_cylindrical_shell(
            1_000_000, 40_000, 140_000, 295_000, 101_325, fiberglass(), 3,
        )
        .unwrap(),
    );
    let before = mixer.clone();
    assert_eq!(
        mixer.lateral_and_miscellaneous_connections_mx10(100_000, 4_360_000),
        Err(TuasLibError::DimensionMismatch)
    );
    assert_eq!(mixer, before);
    assert_eq!(lateral(&mixer.insulation_array), vec![0; 5]);
    assert_eq!(lateral(&mixer.pipe_shell), vec![0; 4]);
    assert_eq!(lateral(&mixer.pipe_fluid_array), vec![0; 4]);
    assert_eq!(
        mixer.pipe_fluid_array.as_fluid_array().ok().unwrap().get_mass_flowrate(),
        0
    );

    // a boundary condition in the place of the fluid
    let mut mixer = self::mixer();
    mixer.pipe_fluid_array = HeatTransferEntity::from(BCType::new_const_temperature(300_000));
    assert_eq!(
        mixer.lateral_and_miscellaneous_connections_mx10(100_000, 4_360_000),
        Err(TuasLibError::TypeConversionError)
    );
    assert_eq!(
        mixer.get_therminol_node_steel_shell_conductance_mx10(4_360_000),
        Err(TuasLibError::TypeConversionError)
    );
    assert_eq!(
        mixer.mx10_hydraulic_diameter_reynolds(100_000, 300_000),
        Err(TuasLibError::TypeConversionError)
    );
    assert_eq!(
        mixer.set_mass_flowrate(100_000),
        Err(TuasLibError::TypeConversionError)
    );
    assert_eq!(
        mixer.zero_power_bc_connection(),
        Err(TuasLibError::TypeConversionError)
    );
    assert_eq!(lateral(&mixer.pipe_shell), vec![0; 4]);
    assert_eq!(lateral(&mixer.insulation_array), vec![0; 4]);

    // a fluid in the place of the insulation
    let mut mixer = self::mixer();
    mixer.insulation_array = HeatTransferEntity::from(CVType::FluidArrayCV(
        FluidArray::new_odd_shaped_pipe(1_000_000, 20_000, 1_000_000_000, 300_000, 101_325, oil(), 2)
            .unwrap(),
    ));
    assert_eq!(
        mixer.get_air_insulation_shell_conductance_mx10(10_000_000),
        Err(TuasLibError::TypeConversionError)
    );
    assert_eq!(
        mixer.get_steel_to_fiberglass_conductance_mx10_nodal(),
        Err(TuasLibError::TypeConversionError)
    );

    // a step that takes the fluid beyond its range
    let mut mixer = self::mixer();
    let mut heater = HeatTransferEntity::from(BCType::new_const_heat_addition(i64::MAX));
    mixer
        .pipe_fluid_array
        .link_to_front(&mut heater, HeatTransferInteractionType::UserSpecifiedHeatAddition)
        .unwrap();
    mixer
        .pipe_shell
        .lateral_link_new_temperature_vector_avg_conductance(1_000_000, vec![320_000; 4])
        .unwrap();
    let before = mixer.clone();
    assert_eq!(
        mixer.advance_timestep(1000),
        Err(TuasLibError::ThermophysicalPropertyTemperatureRangeError)
    );
    assert_eq!(mixer, before);
    assert_eq!(lateral(&mixer.pipe_shell), vec![10_000_000_000; 4]);
    assert_eq!(mixer.pipe_shell_temperature(), Ok(vec![310_000; 4]));
}

#[test]
fn zero_power_connection_makes_all_ends_adiabatic() {
    let mut mixer = mixer();
    let mut hot = HeatTransferEntity::from(BCType::new_const_temperature(400_000));
    let conduction = HeatTransferInteractionType::UserSpecifiedThermalConductance(1_000_000);
    mixer.pipe_shell.link_to_front(&mut hot, conduction).unwrap();
    mixer.insulation_array.link_to_back(&mut hot, conduction).unwrap();
    assert_eq!(ends(&mixer.pipe_shell), (0, 90_000_000_000));
    assert_eq!(ends(&mixer.insulation_array), (105_000_000_000, 0));
    assert_eq!(mixer.zero_power_bc_connection(), Ok(()));
    assert_eq!(ends(&mixer.pipe_shell), (0, 0));
    assert_eq!(ends(&mixer.insulation_array), (0, 0));
}

#[test]
fn component_is_made_of_arrays_of_one_number_of_nodes() {
    let shell = |inner_nodes: usize| {
        SolidColumn::new_cylindrical_shell(
            1_000_000, 38_100, 40_000, 310_000, 101_325, steel(), inner_nodes,
        )
        .unwrap()
    };
    let fluid = |inner_nodes: usize| {
        FluidArray::new_odd_shaped_pipe(
            1_000_000,
            20_000,
            1_000_000_000,
            300_000,
            101_325,
            oil(),
            inner_nodes,
        )
        .unwrap()
    };
    let make = |a: usize, b: usize, c: usize, d: usize| {
        InsulatedPorousMediaFluidComponent::new(
            shell(a),
            shell(b),
            fluid(c),
            shell(d),
            290_000,
            10_000_000,
            1_000_000_000,
            9_000_000,
            439_822_971_560,
            12_000_000,
            258_000_000,
        )
    };
    let mut component = make(2, 2, 2, 2).unwrap();
    assert_eq!(component.number_of_nodes(), 4);
    assert_eq!(component.pipe_shell_temperature().unwrap().len(), 4);
    assert_eq!(component.pipe_fluid_array_temperature().unwrap().len(), 4);
    assert_eq!(component.insulation_array_temperature().unwrap().len(), 4);
    assert_eq!(component.interior_solid_array_temperature().unwrap().len(), 4);
    // the number of nodes stays through links and steps
    component.lateral_and_miscellaneous_connections_mx10(0, 4_360_000).unwrap();
    component.advance_timestep(100).unwrap();
    assert_eq!(component.number_of_nodes(), 4);
    assert_eq!(component.pipe_shell_temperature().unwrap().len(), 4);
    assert_eq!(component.pipe_fluid_array_temperature().unwrap().len(), 4);
    assert_eq!(make(0, 0, 0, 0).unwrap().number_of_nodes(), 2);
    for (a, b, c, d) in [(3, 2, 2, 2), (2, 3, 2, 2), (2, 2, 3, 2), (2, 2, 2, 3)] {
        assert!(matches!(make(a, b, c, d), Err(TuasLibError::DimensionMismatch)));
    }
}

#[test]
fn temperatures_of_what_has_none_are_a_conversion_error() {
    let mut mixer = mixer();
    mixer.pipe_shell = HeatTransferEntity::from(BCType::new_adiabatic_bc());
    mixer.insulation_array = HeatTransferEntity::from(BCType::new_const_heat_flux(1));
    assert_eq!(mixer.pipe_shell_temperature(), Err(TuasLibError::TypeConversionError));
    assert_eq!(mixer.insulation_array_temperature(), Err(TuasLibError::TypeConversionError));
    assert_eq!(mixer.pipe_fluid_array_temperature(), Ok(vec![300_000; 4]));
    assert_eq!(mixer.interior_solid_array_temperature(), Ok(vec![300_000; 4]));
}
