use vstd::prelude::*;
use crate::array_control_vol::column::{power_share, ColumnModel};
use crate::array_control_vol::fluid_array::FluidArrayModel;
use crate::heat_transfer_correlations::heat_transfer_interactions::{
    DataAdvection, HeatTransferInteractionType,
};
use crate::fixed_point::fits_i128;
use crate::pre_built_components::heat_transfer_entities::{
    axial_heat_rate, linked, AxialEnd, EntityModel,
};
use crate::pre_built_components::nodalisation::with_adiabatic_ends;
use crate::single_control_vol::SingleCVNodeModel;
use crate::tuas_lib_error::TuasLibError;
use crate::units::{
    HeatRate, MassDensity, MassRate, Power, Ratio, ThermalConductance, ThermodynamicTemperature,
    Time,
};

verus! {

/// What a link hands one entity it takes from the other: after two control
/// volumes are linked, the heat rates at the two linked ends sum to zero,
/// whatever the interaction.
pub proof fn lemma_link_is_balanced(
    own: EntityModel,
    end: AxialEnd,
    other: EntityModel,
    interaction: HeatTransferInteractionType,
)
    requires
        own.column() matches Some(column) && column.wf(),
        other.column() matches Some(column) && column.wf(),
        linked(own, end, other, interaction) is Ok,
    ensures
        ({
            let (own_after, other_after) = linked(own, end, other, interaction)->Ok_0;
            end_heat_rate(own_after.column()->Some_0, end) + end_heat_rate(
                other_after.column()->Some_0,
                end.facing(),
            ) == 0
        }),
{
    let a = own.column()->Some_0;
    let b = other.column()->Some_0;
    a.lemma_enthalpy_bounds(0);
    a.lemma_enthalpy_bounds(a.len() - 1);
    b.lemma_enthalpy_bounds(0);
    b.lemma_enthalpy_bounds(b.len() - 1);
    match interaction {
        HeatTransferInteractionType::Advection(data) => {
            let outward: int = match end {
                AxialEnd::Front => data.mass_flowrate as int,
                AxialEnd::Back => -data.mass_flowrate,
            };
            let upstream: int = if outward >= 0 {
                a.end_specific_enthalpy(end)
            } else {
                b.end_specific_enthalpy(end.facing())
            };
            assert(-0x2000_0000_0000_0000_0000_0000_0000_0000 <= outward * upstream
                <= 0x2000_0000_0000_0000_0000_0000_0000_0000) by (nonlinear_arith)
                requires
                    -0x8000_0000_0000_0000 <= outward <= 0x8000_0000_0000_0000,
                    -0x4000_0000_0000_0000 <= upstream <= 0x4000_0000_0000_0000,
            ;
        },
        HeatTransferInteractionType::UserSpecifiedHeatAddition => {},
        HeatTransferInteractionType::UserSpecifiedHeatFluxCustomArea(_) => {},
        _ => {
            let conductance = interaction.conductance()->Ok_0;
            let difference = b.end_temperature(end.facing()) - a.end_temperature(end);
            assert(-0x4000_0000_0000_0000_0000_0000_0000_0000 <= conductance * difference
                <= 0x4000_0000_0000_0000_0000_0000_0000_0000) by (nonlinear_arith)
                requires
                    i64::MIN <= conductance <= i64::MAX,
                    -0x8000_0000_0000_0000 <= difference <= 0x8000_0000_0000_0000,
            ;
        },
    }
}

/// The heat rate of the axial link at `end`.
pub open spec fn end_heat_rate(column: ColumnModel, end: AxialEnd) -> HeatRate {
    match end {
        AxialEnd::Front => column.front_heat_rate,
        AxialEnd::Back => column.back_heat_rate,
    }
}

/// Energy conservation: two nodes with no other link, linked to each other
/// by a conductance and advanced by one step, change their enthalpies by
/// amounts that sum to zero, whatever the conductance, the temperatures and
/// the time step, provided the step succeeds for both.
pub proof fn lemma_conduction_between_two_nodes_conserves_energy(
    first: SingleCVNodeModel,
    second: SingleCVNodeModel,
    conductance: ThermalConductance,
    timestep: Time,
)
    requires
        first.wf(),
        second.wf(),
        first.column.unlinked(),
        second.column.unlinked(),
        ({
            let (first_linked, second_linked) = linked(
                EntityModel::SingleCV(first),
                AxialEnd::Front,
                EntityModel::SingleCV(second),
                HeatTransferInteractionType::UserSpecifiedThermalConductance(conductance),
            )->Ok_0;
            first_linked.advanced(timestep) is Ok && second_linked.advanced(timestep) is Ok
        }),
    ensures
        ({
            let (first_linked, second_linked) = linked(
                EntityModel::SingleCV(first),
                AxialEnd::Front,
                EntityModel::SingleCV(second),
                HeatTransferInteractionType::UserSpecifiedThermalConductance(conductance),
            )->Ok_0;
            let first_after = first_linked.advanced(timestep)->Ok_0.column()->Some_0;
            let second_after = second_linked.advanced(timestep)->Ok_0.column()->Some_0;
            (first_after.enthalpy[0] - first.enthalpy()) + (second_after.enthalpy[0]
                - second.enthalpy()) == 0
        }),
{
    let interaction = HeatTransferInteractionType::UserSpecifiedThermalConductance(conductance);
    let (first_linked, second_linked) = linked(
        EntityModel::SingleCV(first),
        AxialEnd::Front,
        EntityModel::SingleCV(second),
        interaction,
    )->Ok_0;
    let a = first_linked.column()->Some_0;
    let b = second_linked.column()->Some_0;
    let rate = conductance * (second.column.temperature[0] - first.column.temperature[0]);
    first.column.lemma_enthalpy_bounds(0);
    second.column.lemma_enthalpy_bounds(0);
    assert(-0x7000_0000_0000_0000_0000_0000_0000_0000 <= rate
        <= 0x7000_0000_0000_0000_0000_0000_0000_0000) by (nonlinear_arith)
        requires
            rate == conductance * (second.column.temperature[0] - first.column.temperature[0]),
            i64::MIN <= conductance <= i64::MAX,
            -0x8000_0000_0000_0000 <= second.column.temperature[0] - first.column.temperature[0]
                <= 0x8000_0000_0000_0000,
    ;
    assert(a.front_heat_rate == rate);
    assert(b.back_heat_rate == -rate);
    assert(a.wf());
    assert(b.wf());
    a.lemma_step_conserves_energy(timestep);
    b.lemma_step_conserves_energy(timestep);
    lemma_total_of_one(a.enthalpy);
    lemma_total_of_one(b.enthalpy);
    lemma_total_of_one(a.lateral_heat_rate);
    lemma_total_of_one(b.lateral_heat_rate);
    lemma_total_of_one(a.advanced(timestep)->Ok_0.enthalpy);
    lemma_total_of_one(b.advanced(timestep)->Ok_0.enthalpy);
    assert(timestep * (0 + 0 + rate) + timestep * (0 + (-rate) + 0) == 0) by (nonlinear_arith);
}

/// The sum of a sequence of zeros is zero.
pub proof fn lemma_total_of_zeros(s: Seq<i128>)
    requires
        forall|i: int| 0 <= i < s.len() ==> #[trigger] s[i] == 0,
    ensures
        crate::array_control_vol::energy_balance::total(s) == 0,
    decreases s.len(),
{
    if s.len() > 0 {
        lemma_total_of_zeros(s.drop_last());
    }
}

/// Energy conservation of a link: two control volumes of any kind with no
/// other link, linked to each other at facing ends by any interaction and
/// advanced by one step, keep the sum of their enthalpies, provided the
/// step succeeds for both.
pub proof fn lemma_linked_pair_conserves_energy(
    own: EntityModel,
    end: AxialEnd,
    other: EntityModel,
    interaction: HeatTransferInteractionType,
    timestep: Time,
)
    requires
        own.column() matches Some(column) && column.wf() && column.unlinked(),
        other.column() matches Some(column) && column.wf() && column.unlinked(),
        linked(own, end, other, interaction) is Ok,
        ({
            let (own_linked, other_linked) = linked(own, end, other, interaction)->Ok_0;
            own_linked.advanced(timestep) is Ok && other_linked.advanced(timestep) is Ok
        }),
    ensures
        ({
            let (own_linked, other_linked) = linked(own, end, other, interaction)->Ok_0;
            let own_after = own_linked.advanced(timestep)->Ok_0.column()->Some_0;
            let other_after = other_linked.advanced(timestep)->Ok_0.column()->Some_0;
            own_after.total_enthalpy() + other_after.total_enthalpy()
                == own.column()->Some_0.total_enthalpy() + other.column()->Some_0.total_enthalpy()
        }),
{
    let (own_linked, other_linked) = linked(own, end, other, interaction)->Ok_0;
    let a = own_linked.column()->Some_0;
    let b = other_linked.column()->Some_0;
    lemma_link_is_balanced(own, end, other, interaction);
    a.lemma_step_conserves_energy(timestep);
    b.lemma_step_conserves_energy(timestep);
    lemma_total_of_zeros(a.lateral_heat_rate);
    lemma_total_of_zeros(b.lateral_heat_rate);
    let rate = end_heat_rate(a, end);
    assert(a.heat_rate_from_outside() == rate);
    assert(b.heat_rate_from_outside() == -rate);
    assert(timestep * rate + timestep * (-rate) == 0) by (nonlinear_arith);
}

/// The sum of a sequence of one element is the element.
pub proof fn lemma_total_of_one(s: Seq<i128>)
    requires
        s.len() == 1,
    ensures
        crate::array_control_vol::energy_balance::total(s) == s[0],
{
    assert(s.drop_last().len() == 0);
    assert(crate::array_control_vol::energy_balance::total(s.drop_last()) == 0);
}

/// Directionality of advection at a link: a flow from this chain into its
/// neighbour carries the specific enthalpy of this chain's end out of it; the
/// same flow with the sign reversed comes from the neighbour and carries the
/// specific enthalpy of the neighbour's facing end into the chain.
pub proof fn lemma_advection_follows_flow_direction(
    own: ColumnModel,
    other: FluidArrayModel,
    mass_flowrate: MassRate,
    density: MassDensity,
)
    requires
        own.wf(),
        other.wf(),
        mass_flowrate > 0,
    ensures
        axial_heat_rate(
            own,
            AxialEnd::Front,
            EntityModel::FluidArray(other),
            HeatTransferInteractionType::Advection(
                DataAdvection {
                    mass_flowrate,
                    fluid_density_heat_transfer_entity_1: density,
                    fluid_density_heat_transfer_entity_2: density,
                },
            ),
        ) == Ok::<i128, TuasLibError>(
            (-(mass_flowrate * own.specific_enthalpy(own.len() - 1))) as i128,
        ),
        axial_heat_rate(
            own,
            AxialEnd::Front,
            EntityModel::FluidArray(other),
            HeatTransferInteractionType::Advection(
                DataAdvection {
                    mass_flowrate: (-mass_flowrate) as i64,
                    fluid_density_heat_transfer_entity_1: density,
                    fluid_density_heat_transfer_entity_2: density,
                },
            ),
        ) == Ok::<i128, TuasLibError>((mass_flowrate * other.column.specific_enthalpy(0)) as i128),
        axial_heat_rate(
            own,
            AxialEnd::Back,
            EntityModel::FluidArray(other),
            HeatTransferInteractionType::Advection(
                DataAdvection {
                    mass_flowrate,
                    fluid_density_heat_transfer_entity_1: density,
                    fluid_density_heat_transfer_entity_2: density,
                },
            ),
        ) == Ok::<i128, TuasLibError>(
            (mass_flowrate * other.column.specific_enthalpy(other.column.len() - 1)) as i128,
        ),
        axial_heat_rate(
            own,
            AxialEnd::Back,
            EntityModel::FluidArray(other),
            HeatTransferInteractionType::Advection(
                DataAdvection {
                    mass_flowrate: (-mass_flowrate) as i64,
                    fluid_density_heat_transfer_entity_1: density,
                    fluid_density_heat_transfer_entity_2: density,
                },
            ),
        ) == Ok::<i128, TuasLibError>((-(mass_flowrate * own.specific_enthalpy(0))) as i128),
{
    own.lemma_enthalpy_bounds(0);
    own.lemma_enthalpy_bounds(own.len() - 1);
    other.column.lemma_enthalpy_bounds(0);
    other.column.lemma_enthalpy_bounds(other.column.len() - 1);
    let reversed = -mass_flowrate;
    assert(-(reversed * other.column.specific_enthalpy(0)) == mass_flowrate
        * other.column.specific_enthalpy(0)) by (nonlinear_arith)
        requires
            reversed == -mass_flowrate,
    ;
    assert(-(reversed * other.column.specific_enthalpy(other.column.len() - 1)) == mass_flowrate
        * other.column.specific_enthalpy(other.column.len() - 1)) by (nonlinear_arith)
        requires
            reversed == -mass_flowrate,
    ;
}

/// Directionality of advection inside an array: a positive flow hands each
/// node's specific enthalpy to the next node towards the front; the same
/// flow reversed hands each node's specific enthalpy to the next node
/// towards the back.
pub proof fn lemma_flow_inside_array_follows_direction(array: ColumnModel, i: int)
    requires
        array.wf(),
        0 <= i < array.len() - 1,
        array.axial_conductance == 0,
    ensures
        array.mass_flowrate >= 0 ==> array.face_heat_rate(i) == array.mass_flowrate
            * array.specific_enthalpy(i),
        array.mass_flowrate < 0 ==> array.face_heat_rate(i) == array.mass_flowrate
            * array.specific_enthalpy(i + 1),
{
    assert(array.axial_conductance * (array.temperature[i] - array.temperature[i + 1]) == 0)
        by (nonlinear_arith)
        requires
            array.axial_conductance == 0,
    ;
}

/// The heat rate that the lateral links have registered at node `i` of the
/// entity.
pub open spec fn registered_heat_rate(entity: EntityModel, i: int) -> int {
    entity.column()->Some_0.lateral_heat_rate[i] as int
}

/// The temperature of node `i` of the entity.
pub open spec fn node_temperature(entity: EntityModel, i: int) -> int {
    entity.column()->Some_0.temperature[i] as int
}

/// A lateral link hands node `i` the conductance times the difference
/// between the temperature it is linked to and its own, and leaves the
/// temperatures and the number of nodes as they were.
pub proof fn lemma_lateral_link_at_node(
    entity: EntityModel,
    conductance: ThermalConductance,
    temperatures: Seq<ThermodynamicTemperature>,
    i: int,
)
    requires
        entity.with_lateral_temperatures(conductance, temperatures) is Ok,
        0 <= i < temperatures.len(),
    ensures
        entity.column() is Some,
        entity.column()->Some_0.len() == temperatures.len(),
        entity.with_lateral_temperatures(conductance, temperatures) matches Ok(after)
            && after.column() matches Some(column) && column.len() == temperatures.len()
            && column.temperature == entity.column()->Some_0.temperature && registered_heat_rate(
            after,
            i,
        ) == registered_heat_rate(entity, i) + conductance * (temperatures[i] - node_temperature(
            entity,
            i,
        )),
{
    let column = entity.column()->Some_0;
    assert(fits_i128(
        column.lateral_heat_rate[i] + conductance * (temperatures[i] - column.temperature[i]),
    ));
}

/// A lateral link that spreads a power hands node `i` its share of the
/// power, and leaves the temperatures and the number of nodes as they
/// were.
pub proof fn lemma_power_link_at_node(
    entity: EntityModel,
    total_power: Power,
    fractions: Seq<Ratio>,
    i: int,
)
    requires
        entity.with_lateral_power(total_power, fractions) is Ok,
        0 <= i < fractions.len(),
    ensures
        entity.column() is Some,
        entity.column()->Some_0.len() == fractions.len(),
        entity.with_lateral_power(total_power, fractions) matches Ok(after) && after.column() matches Some(
            column,
        ) && column.len() == fractions.len() && column.temperature
            == entity.column()->Some_0.temperature && registered_heat_rate(after, i)
            == registered_heat_rate(entity, i) + power_share(total_power, fractions, i),
{
    let column = entity.column()->Some_0;
    assert(column.power_share_fits(total_power, fractions, i));
}

/// Adiabatic ends leave the heat rates that the lateral links have
/// registered, the temperatures and the number of nodes as they were.
pub proof fn lemma_adiabatic_ends_at_node(entity: EntityModel, i: int)
    requires
        with_adiabatic_ends(entity) is Ok,
    ensures
        entity.column() is Some,
        with_adiabatic_ends(entity) matches Ok(after) && after.column() matches Some(column)
            && column.len() == entity.column()->Some_0.len() && column.temperature
            == entity.column()->Some_0.temperature && registered_heat_rate(after, i)
            == registered_heat_rate(entity, i),
{
}

} // verus!
