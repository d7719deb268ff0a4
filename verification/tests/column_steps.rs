use tuas_boussinesq_solver::array_control_vol::column::ControlVolumeColumn;
use tuas_boussinesq_solver::boussinesq_thermophysical_properties::material::Material;
use tuas_boussinesq_solver::tuas_lib_error::TuasLibError;

fn test_fluid() -> Material {
    // 250 K to 400 K, 1000 kg/m3, 2000 J/(kg K), 0.5 W/(m K), 1 mPa s
    Material::with_constant_properties(
        250_000,
        400_000,
        1_000_000,
        2_000_000,
        500_000,
        Some(1_000_000),
    )
    .unwrap()
}

#[test]
fn single_node_heated_by_constant_power() {
    // 0.05 kg at 300 K, 100 W for ten steps of one second
    let mut node = ControlVolumeColumn::new(test_fluid(), 101_325, 50_000_000, 1, 300_000).unwrap();
    assert_eq!(node.temperature_vector(), vec![300_000]);
    for _ in 0..10 {
        node.lateral_link_new_power_vector(100_000_000_000, &vec![1_000_000])
            .unwrap();
        node.advance_timestep(1000).unwrap();
    }
    assert_eq!(node.temperature_vector(), vec![310_000]);
}

#[test]
fn lateral_link_rejects_wrong_length_and_changes_nothing() {
    let mut column =
        ControlVolumeColumn::new(test_fluid(), 101_325, 50_000_000, 3, 300_000).unwrap();
    column
        .lateral_link_new_temperature_vector_avg_conductance(1_000_000, &vec![310_000; 3])
        .unwrap();
    let before = column.lateral_heat_rate_vector();
    assert_eq!(before, vec![10_000_000_000; 3]);
    assert_eq!(
        column.lateral_link_new_temperature_vector_avg_conductance(1_000_000, &vec![310_000; 2]),
        Err(TuasLibError::DimensionMismatch)
    );
    assert_eq!(
        column.lateral_link_new_temperature_vector_avg_conductance(1_000_000, &vec![310_000; 4]),
        Err(TuasLibError::DimensionMismatch)
    );
    assert_eq!(column.lateral_heat_rate_vector(), before);
    assert_eq!(column.temperature_vector(), vec![300_000; 3]);
}

#[test]
fn advection_carries_inlet_enthalpy_downstream() {
    let material = test_fluid();
    let inlet_enthalpy = material.try_get_h(320_000).unwrap();
    let mut column = ControlVolumeColumn::new(material, 101_325, 50_000_000, 4, 300_000).unwrap();
    column.set_mass_flowrate(10_000); // 10 g/s from the back to the front
    for _ in 0..4000 {
        let outlet_enthalpy = column.specific_enthalpy(3);
        column.link_back_heat_rate(10_000 * inlet_enthalpy as i128);
        column.link_front_heat_rate(-(10_000 * outlet_enthalpy as i128));
        column.advance_timestep(100).unwrap();
    }
    assert_eq!(column.temperature_vector(), vec![320_000; 4]);
}

#[test]
fn bulk_temperature_is_the_mean_of_the_nodes() {
    let mut column = ControlVolumeColumn::new(test_fluid(), 101_325, 50_000_000, 3, 300_000).unwrap();
    assert_eq!(column.bulk_temperature(), 300_000);
    // 100 W for one second, half of it into each of the last two nodes
    column
        .lateral_link_new_power_vector(100_000_000_000, &vec![0, 500_000, 500_000])
        .unwrap();
    assert_eq!(column.lateral_heat_rate_vector(), vec![0, 50_000_000_000, 50_000_000_000]);
    column.advance_timestep(1000).unwrap();
    assert_eq!(column.temperature_vector(), vec![300_000, 300_500, 300_500]);
    // (300 + 300.5 + 300.5) / 3 = 300.3333, rounded down
    assert_eq!(column.bulk_temperature(), 300_333);
    assert_eq!(column.back_temperature(), 300_000);
    assert_eq!(column.front_temperature(), 300_500);
    assert_eq!(column.number_of_nodes(), 3);
    assert_eq!(column.node_mass(), 50_000_000);
    assert_eq!(column.pressure(), 101_325);
    assert_eq!(column.mass_flowrate(), 0);
    // 2000 J/(kg K) * 27.35 K
    assert_eq!(column.specific_enthalpy(2), 54_700_000);
    let copy = column.duplicate();
    assert_eq!(copy.temperature_vector(), column.temperature_vector());
    assert_eq!(copy.enthalpy_vector(), column.enthalpy_vector());
}

#[test]
fn column_needs_nodes_mass_and_a_temperature_of_its_material() {
    assert!(matches!(
        ControlVolumeColumn::new(test_fluid(), 101_325, 50_000_000, 0, 300_000),
        Err(TuasLibError::DimensionMismatch)
    ));
    assert!(matches!(
        ControlVolumeColumn::new(test_fluid(), 101_325, 0, 1, 300_000),
        Err(TuasLibError::ValueNotRepresentable)
    ));
    assert!(matches!(
        ControlVolumeColumn::new(test_fluid(), 101_325, -1, 1, 300_000),
        Err(TuasLibError::ValueNotRepresentable)
    ));
    assert!(matches!(
        ControlVolumeColumn::new(test_fluid(), 101_325, 50_000_000, 1, 249_999),
        Err(TuasLibError::ThermophysicalPropertyTemperatureRangeError)
    ));
    assert!(ControlVolumeColumn::new(test_fluid(), 101_325, 1, 1, 250_000).is_ok());
    assert!(ControlVolumeColumn::new(test_fluid(), 101_325, i64::MAX, 1, 400_000).is_ok());
    // a prism of 1 m by 1000 mm2 of 1000 kg/m3: 1 kg in three nodes
    let prism =
        ControlVolumeColumn::new_prism(test_fluid(), 101_325, 1_000_000_000, 1_000_000, 3, 300_000)
            .unwrap();
    assert_eq!(prism.node_mass(), 333_333_333);
    assert!(matches!(
        ControlVolumeColumn::new_prism(test_fluid(), 101_325, -1_000_000_000, 1_000_000, 3, 300_000),
        Err(TuasLibError::ValueNotRepresentable)
    ));
    assert!(matches!(
        ControlVolumeColumn::new_prism(test_fluid(), 101_325, i64::MAX, i64::MAX, 3, 300_000),
        Err(TuasLibError::ValueNotRepresentable)
    ));
}

#[test]
fn power_vector_hands_out_the_whole_power() {
    let mut column =
        ControlVolumeColumn::new(test_fluid(), 101_325, 50_000_000, 3, 300_000).unwrap();
    // ten nanowatts over three nodes: what rounding keeps from one node
    // goes to the next
    column
        .lateral_link_new_power_vector(10, &vec![333_334, 333_333, 333_333])
        .unwrap();
    assert_eq!(column.lateral_heat_rate_vector(), vec![3, 3, 4]);
    column
        .lateral_link_new_power_vector(-10, &vec![333_334, 333_333, 333_333])
        .unwrap();
    // the opposite power takes from each node what the power gave it
    assert_eq!(column.lateral_heat_rate_vector(), vec![0, 0, 0]);
    column
        .lateral_link_new_power_vector(-10, &vec![333_334, 333_333, 333_333])
        .unwrap();
    assert_eq!(column.lateral_heat_rate_vector(), vec![-3, -3, -4]);
    let mut heated =
        ControlVolumeColumn::new(test_fluid(), 101_325, 50_000_000, 7, 300_000).unwrap();
    heated
        .lateral_link_new_power_vector(
            1_000_000_000_001,
            &vec![142_858, 142_857, 142_857, 142_857, 142_857, 142_857, 142_857],
        )
        .unwrap();
    assert_eq!(
        heated.lateral_heat_rate_vector().iter().sum::<i128>(),
        1_000_000_000_001
    );
}

#[test]
fn a_chain_in_the_state_of_the_inlet_stays_there() {
    let material = test_fluid();
    let inlet_enthalpy = material.try_get_h(300_000).unwrap();
    for flow in [10_000i64, -10_000] {
        let mut column =
            ControlVolumeColumn::new(test_fluid(), 101_325, 50_000_000, 4, 300_000).unwrap();
        column.set_mass_flowrate(flow);
        let before = column.enthalpy_vector();
        for _ in 0..50 {
            if flow >= 0 {
                let outlet_enthalpy = column.specific_enthalpy(3);
                column.link_back_heat_rate(flow as i128 * inlet_enthalpy as i128);
                column.link_front_heat_rate(-(flow as i128 * outlet_enthalpy as i128));
            } else {
                let outlet_enthalpy = column.specific_enthalpy(0);
                column.link_front_heat_rate(-(flow as i128 * inlet_enthalpy as i128));
                column.link_back_heat_rate(flow as i128 * outlet_enthalpy as i128);
            }
            column.advance_timestep(100).unwrap();
            assert_eq!(column.enthalpy_vector(), before);
            assert_eq!(column.temperature_vector(), vec![300_000; 4]);
        }
    }
}
