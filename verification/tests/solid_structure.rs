use tuas_boussinesq_solver::array_control_vol::fluid_array::FluidArray;
use tuas_boussinesq_solver::array_control_vol::solid_column::SolidColumn;
use tuas_boussinesq_solver::boundary_conditions::BCType;
use tuas_boussinesq_solver::boussinesq_thermophysical_properties::material::Material;
use tuas_boussinesq_solver::heat_transfer_correlations::heat_transfer_interactions::HeatTransferInteractionType;
use tuas_boussinesq_solver::pre_built_components::heat_transfer_entities::{
    CVType, HeatTransferEntity,
};
use tuas_boussinesq_solver::pre_built_components::one_d_solid_structure::SolidStructure;
use tuas_boussinesq_solver::tuas_lib_error::TuasLibError;

fn steel() -> Material {
    // 250 K to 1000 K, 8000 kg/m3, 500 J/(kg K), 16 W/(m K)
    Material::with_constant_properties(250_000, 1_000_000, 8_000_000, 500_000, 16_000_000, None)
        .unwrap()
}

fn oil() -> Material {
    Material::with_constant_properties(
        250_000,
        400_000,
        1_000_000,
        2_000_000,
        500_000,
        Some(1_000_000),
    )
    .unwrap()
}

/// A steel tube of 1 m, 20 mm by 30 mm, at 300 K, in `inner_nodes + 2` nodes.
fn tube(inner_nodes: usize) -> SolidColumn {
    SolidColumn::new_cylindrical_shell(
        1_000_000,
        20_000,
        30_000,
        300_000,
        101_325,
        steel(),
        inner_nodes,
    )
    .unwrap()
}

fn lateral(structure: &SolidStructure) -> Vec<i128> {
    structure.solid_array.column().unwrap().lateral_heat_rate_vector()
}

fn ends(structure: &SolidStructure) -> (i128, i128) {
    let column = structure.solid_array.column().unwrap();
    (column.back_heat_rate(), column.front_heat_rate())
}

#[test]
fn conductance_from_the_surroundings_to_a_cylinder() {
    let mut structure = SolidStructure::new(tube(3));
    // 20 W/(m2 K) on pi * 0.03 m * 0.2 m = 0.0188496 m2
    assert_eq!(
        structure.get_ambient_surroundings_to_cylinder_thermal_conductance(
            20_000_000, 30_000, 290_000
        ),
        Ok(376_991)
    );
    // the ambient temperature has no influence
    assert_eq!(
        structure.get_ambient_surroundings_to_cylinder_thermal_conductance(
            20_000_000, 30_000, 999_000
        ),
        Ok(376_991)
    );
    // the film in series with the outer half of the wall:
    // 16 W/(m K) * 6.892 m = 110.272 W/K
    assert_eq!(
        structure.get_ambient_surroundings_to_hollow_cylinder_thermal_conductance(
            20_000_000, 30_000, 6_892_000, 290_000
        ),
        Ok(375_706)
    );
    assert_eq!(structure.array_temperature(), Ok(vec![300_000; 5]));
}

#[test]
fn mixed_boundary_condition_links_every_node() {
    let mut structure = SolidStructure::new(tube(3));
    assert_eq!(
        structure.link_mixed_boundary_condition_laterally(376_991, 290_000, 50_000_000_000),
        Ok(())
    );
    // 0.376991 W/K * -10 K + 50 W / 5
    assert_eq!(lateral(&structure), vec![6_230_090_000; 5]);
    assert_eq!(ends(&structure), (0, 0));
    // a second link of the same step adds to the first
    assert_eq!(
        structure.link_ambient_temperature_boundary_condition_laterally(376_991, 290_000),
        Ok(())
    );
    assert_eq!(lateral(&structure), vec![2_460_180_000; 5]);
    structure.solid_array.advance_timestep(1000).unwrap();
    assert_eq!(lateral(&structure), vec![0; 5]);
}

#[test]
fn one_step_of_a_heated_and_cooled_structure() {
    let mut structure = SolidStructure::new(tube(3));
    structure
        .link_mixed_boundary_condition_laterally(376_991, 290_000, 50_000_000_000)
        .unwrap();
    structure.solid_array.advance_timestep(1000).unwrap();
    // 6.23009 J into 0.628318529 kg of 500 J/(kg K): 19.8 mK
    assert_eq!(structure.array_temperature(), Ok(vec![300_019; 5]));
    assert_eq!(
        structure.solid_array.column().unwrap().enthalpy_vector(),
        vec![8_441_406_341_825_000; 5]
    );
}

#[test]
fn adiabatic_ends_replace_earlier_axial_links() {
    let mut structure = SolidStructure::new(tube(3));
    let mut hot = HeatTransferEntity::from(BCType::new_const_temperature(400_000));
    structure
        .solid_array
        .link_to_front(
            &mut hot,
            HeatTransferInteractionType::UserSpecifiedThermalConductance(1_000_000),
        )
        .unwrap();
    assert_eq!(ends(&structure), (0, 100_000_000_000));
    assert_eq!(structure.zero_power_bc_connection(), Ok(()));
    assert_eq!(ends(&structure), (0, 0));
    // the lateral links end with adiabatic ends too; a link made afterwards counts
    structure
        .solid_array
        .link_to_back(
            &mut hot,
            HeatTransferInteractionType::UserSpecifiedThermalConductance(1_000_000),
        )
        .unwrap();
    structure
        .link_ambient_temperature_boundary_condition_laterally(376_991, 290_000)
        .unwrap();
    assert_eq!(ends(&structure), (0, 0));
    structure
        .solid_array
        .link_to_back(
            &mut hot,
            HeatTransferInteractionType::UserSpecifiedThermalConductance(1_000_000),
        )
        .unwrap();
    assert_eq!(ends(&structure), (100_000_000_000, 0));
}

#[test]
fn a_structure_needs_a_solid_column_of_its_number_of_nodes() {
    // another number of nodes than the structure was made with
    let mut structure = SolidStructure::new(tube(3));
    structure.solid_array = HeatTransferEntity::from(CVType::SolidArrayCV(tube(4)));
    let before = structure.clone();
    assert_eq!(
        structure.link_mixed_boundary_condition_laterally(376_991, 290_000, 50_000_000_000),
        Err(TuasLibError::DimensionMismatch)
    );
    assert_eq!(structure, before);
    assert_eq!(structure.duplicate(), before);
    assert_eq!(lateral(&structure), vec![0; 6]);
    assert_eq!(structure.array_temperature(), Ok(vec![300_000; 6]));

    // a fluid array in its place
    structure.solid_array = HeatTransferEntity::from(CVType::FluidArrayCV(
        FluidArray::new_odd_shaped_pipe(
            1_000_000,
            35_682,
            1_000_000_000,
            300_000,
            101_325,
            oil(),
            3,
        )
        .unwrap(),
    ));
    assert_eq!(
        structure.link_mixed_boundary_condition_laterally(376_991, 290_000, 50_000_000_000),
        Err(TuasLibError::TypeConversionError)
    );
    assert_eq!(
        structure.get_ambient_surroundings_to_cylinder_thermal_conductance(
            20_000_000, 30_000, 290_000
        ),
        Err(TuasLibError::TypeConversionError)
    );
    assert_eq!(
        structure.get_ambient_surroundings_to_hollow_cylinder_thermal_conductance(
            20_000_000, 30_000, 6_892_000, 290_000
        ),
        Err(TuasLibError::TypeConversionError)
    );
    assert_eq!(lateral(&structure), vec![0; 5]);

    // a boundary condition in its place
    structure.solid_array = HeatTransferEntity::from(BCType::new_adiabatic_bc());
    assert_eq!(
        structure.link_ambient_temperature_boundary_condition_laterally(376_991, 290_000),
        Err(TuasLibError::TypeConversionError)
    );
    assert_eq!(
        structure.zero_power_bc_connection(),
        Err(TuasLibError::TypeConversionError)
    );
    assert_eq!(
        structure.array_temperature(),
        Err(TuasLibError::TypeConversionError)
    );
}

#[test]
fn a_conductance_that_leaves_64_bits_is_not_representable() {
    let narrow =
        Material::with_constant_properties(299_000, 301_000, 8_000_000, 500_000, 16_000_000, None)
            .unwrap();
    let column =
        SolidColumn::new_cylindrical_shell(1_000_000, 20_000, 30_000, 300_000, 101_325, narrow, 3)
            .unwrap();
    let mut structure = SolidStructure::new(column);
    assert_eq!(
        structure.get_ambient_surroundings_to_hollow_cylinder_thermal_conductance(
            20_000_000, 30_000, 6_892_000, 290_000
        ),
        Ok(375_706)
    );
    // a shape factor that makes the conductance of the wall leave 64 bits
    assert_eq!(
        structure.get_ambient_surroundings_to_hollow_cylinder_thermal_conductance(
            20_000_000, 30_000, i64::MAX, 290_000
        ),
        Err(TuasLibError::ValueNotRepresentable)
    );
}

#[test]
fn a_structure_at_the_temperature_of_its_surroundings_stays_still() {
    let mut structure = SolidStructure::new(tube(3));
    let before = structure.solid_array.column().unwrap().enthalpy_vector();
    for timestep in [1i64, 1000, 1_000_000_000] {
        assert_eq!(
            structure.link_ambient_temperature_boundary_condition_laterally(376_991, 300_000),
            Ok(())
        );
        assert_eq!(lateral(&structure), vec![0; 5]);
        assert_eq!(ends(&structure), (0, 0));
        assert_eq!(structure.advance_timestep(timestep), Ok(()));
        assert_eq!(structure.array_temperature(), Ok(vec![300_000; 5]));
        assert_eq!(
            structure.solid_array.column().unwrap().enthalpy_vector(),
            before
        );
    }
}

#[test]
fn a_structure_without_a_film_keeps_its_heat() {
    let mut structure = SolidStructure::new(tube(3));
    // heat two nodes through the ends, then leave the structure to itself
    let mut hot = HeatTransferEntity::from(BCType::new_const_temperature(400_000));
    structure
        .solid_array
        .link_to_front(
            &mut hot,
            HeatTransferInteractionType::UserSpecifiedThermalConductance(1_000_000),
        )
        .unwrap();
    structure.advance_timestep(1000).unwrap();
    if let HeatTransferEntity::ControlVolume(CVType::SolidArrayCV(column)) =
        &mut structure.solid_array
    {
        column.set_axial_conductance(2_000_000);
    }
    let temperatures = structure.array_temperature().unwrap();
    assert!(temperatures[4] > temperatures[3]);
    let before: i128 = structure
        .solid_array
        .column()
        .unwrap()
        .enthalpy_vector()
        .iter()
        .sum();
    for _ in 0..20 {
        assert_eq!(
            structure.link_ambient_temperature_boundary_condition_laterally(0, 250_000),
            Ok(())
        );
        assert_eq!(lateral(&structure), vec![0; 5]);
        assert_eq!(structure.advance_timestep(100), Ok(()));
    }
    let after: i128 = structure
        .solid_array
        .column()
        .unwrap()
        .enthalpy_vector()
        .iter()
        .sum();
    assert_eq!(after, before);
    // conduction has carried heat from the last node to the one before it
    let later = structure.array_temperature().unwrap();
    assert!(later[3] > temperatures[3]);
    assert!(later[4] < temperatures[4]);
}

#[test]
fn a_power_that_the_nodes_cannot_share_evenly_is_handed_out_whole() {
    let mut structure = SolidStructure::new(tube(1));
    assert_eq!(
        structure.link_mixed_boundary_condition_laterally(0, 300_000, 10),
        Ok(())
    );
    assert_eq!(lateral(&structure), vec![3, 3, 4]);
    let mut seven = SolidStructure::new(tube(5));
    assert_eq!(
        seven.link_mixed_boundary_condition_laterally(0, 300_000, 1_000_000_000_001),
        Ok(())
    );
    assert_eq!(lateral(&seven).iter().sum::<i128>(), 1_000_000_000_001);
}

#[test]
fn two_nodes_of_a_structure_heated_by_constant_power() {
    // 0.1 kg of 2000 J/(kg K) in two nodes of 0.05 kg at 300 K; 100 W into
    // each node for ten steps of one second, and no other link
    let material =
        Material::with_constant_properties(250_000, 400_000, 1_000_000, 2_000_000, 500_000, None)
            .unwrap();
    let column =
        SolidColumn::new_prism(1_000_000, 100_000_000, 300_000, 101_325, material, 0).unwrap();
    assert_eq!(column.column().node_mass(), 50_000_000);
    let mut structure = SolidStructure::new(column);
    for _ in 0..10 {
        structure
            .link_mixed_boundary_condition_laterally(0, 300_000, 200_000_000_000)
            .unwrap();
        assert_eq!(lateral(&structure), vec![100_000_000_000; 2]);
        structure.advance_timestep(1000).unwrap();
    }
    // 300 K + 100 W * 10 s / (0.05 kg * 2000 J/(kg K))
    assert_eq!(structure.array_temperature(), Ok(vec![310_000; 2]));
}
