use vstd::prelude::*;
use crate::array_control_vol::column::{outcome, state_after};
use crate::array_control_vol::solid_column::SolidColumn;
use crate::heat_transfer_correlations::heat_transfer_interactions::{
    cylindrical_conductance, try_get_thermal_conductance_based_on_interaction,
    DataCylindricalConductionConvection, DataUserSpecifiedConvectionResistance,
    HeatTransferInteractionType,
};
use crate::heat_transfer_correlations::thermal_resistance::{
    convective_conductance, cylinder_lateral_area, try_get_cylinder_lateral_area,
};
use crate::array_control_vol::energy_balance::total;
use crate::pre_built_components::conservation::lemma_total_of_zeros;
use crate::pre_built_components::heat_transfer_entities::{
    AxialEnd, CVType, EntityModel, HeatTransferEntity,
};
use crate::array_control_vol::power_fractions::{uniform, PowerFractions};
use crate::pre_built_components::nodalisation::{
    even_shares, filled, get_even_shares, lemma_even_shares_sum_to_one, link_adiabatic_ends,
    nodal_share, try_get_nodal_share, with_adiabatic_ends,
};
use crate::tuas_lib_error::TuasLibError;
use crate::units::{
    HeatTransfer, Length, Power, ThermalConductance, ThermodynamicTemperature, Time,
};

verus! {

/// What a solid structure is to this library.
pub struct SolidStructureModel {
    pub number_of_nodes: nat,
    pub solid_array: EntityModel,
    pub structure_length: Length,
}

impl SolidStructureModel {
    pub open spec fn with_solid_array(self, solid_array: EntityModel) -> SolidStructureModel {
        SolidStructureModel { solid_array, ..self }
    }

    /// The solid array after the lateral links of a step: every node linked
    /// to the ambient temperature by `conductance` and handed its even share
    /// of `total_power`, and both ends adiabatic. An entity that is no solid
    /// column cannot be linked so.
    pub open spec fn laterally_linked(
        self,
        conductance: ThermalConductance,
        ambient_temperature: ThermodynamicTemperature,
        total_power: Power,
    ) -> Result<EntityModel, TuasLibError> {
        if !(self.solid_array is SolidArray) {
            Err(TuasLibError::TypeConversionError)
        } else {
            match self.solid_array.with_lateral_temperatures(
                conductance,
                uniform(self.number_of_nodes, ambient_temperature),
            ) {
                Ok(cooled) => match cooled.with_lateral_power(
                    total_power,
                    even_shares(self.number_of_nodes),
                ) {
                    Ok(heated) => with_adiabatic_ends(heated),
                    Err(e) => Err(e),
                },
                Err(e) => Err(e),
            }
        }
    }

    /// A structure is one valid solid column, at rest, of the number of
    /// nodes that the structure was made with. No operation of the structure
    /// on a valid one leaves it otherwise.
    pub open spec fn wf(self) -> bool {
        self.solid_array matches EntityModel::SolidArray(array) && array.column.wf()
            && array.column.len() == self.number_of_nodes && array.column.mass_flowrate == 0
    }

    /// The lateral links of a step leave a valid structure valid.
    pub proof fn lemma_links_keep_validity(
        self,
        conductance: ThermalConductance,
        ambient_temperature: ThermodynamicTemperature,
        total_power: Power,
    )
        requires
            self.wf(),
        ensures
            self.with_solid_array(
                state_after(
                    self.laterally_linked(conductance, ambient_temperature, total_power),
                    self.solid_array,
                ),
            ).wf(),
    {
        let ambient = uniform(self.number_of_nodes, ambient_temperature);
        match self.solid_array.with_lateral_temperatures(conductance, ambient) {
            Ok(cooled) => {
                let first = self.with_solid_array(cooled);
                assert(first.wf());
                match cooled.with_lateral_power(total_power, even_shares(self.number_of_nodes)) {
                    Ok(heated) => {
                        let second = self.with_solid_array(heated);
                        assert(second.wf());
                        second.lemma_adiabatic_ends_keep_validity();
                    },
                    Err(_) => {},
                }
            },
            Err(_) => {},
        }
    }

    /// Adiabatic ends leave a valid structure valid.
    pub proof fn lemma_adiabatic_ends_keep_validity(self)
        requires
            self.wf(),
        ensures
            self.with_solid_array(
                state_after(with_adiabatic_ends(self.solid_array), self.solid_array),
            ).wf(),
    {
    }

    /// A step leaves a valid structure valid.
    pub proof fn lemma_step_keeps_validity(self, timestep: Time)
        requires
            self.wf(),
        ensures
            self.with_solid_array(
                state_after(self.solid_array.advanced(timestep), self.solid_array),
            ).wf(),
    {
        let column = self.solid_array.column()->Some_0;
        if column.advanced(timestep) is Ok {
            column.lemma_step_keeps_validity(timestep);
        }
    }

    /// A structure at the temperature of its surroundings stays as it is.
    /// Where every node is at `ambient_temperature` and no link is
    /// registered, the lateral links of a step without power succeed
    /// whatever the conductance; they leave no net heat rate at any node and
    /// no heat rate at either end; and the step after them, whatever its
    /// time step, succeeds and leaves every enthalpy and every temperature
    /// as it was.
    pub proof fn lemma_structure_at_ambient_temperature_stays_still(
        self,
        conductance: ThermalConductance,
        ambient_temperature: ThermodynamicTemperature,
        timestep: Time,
    )
        requires
            self.wf(),
            self.solid_array.column()->Some_0.unlinked(),
            forall|i: int|
                0 <= i < self.number_of_nodes
                    ==> #[trigger] self.solid_array.column()->Some_0.temperature[i]
                    == ambient_temperature,
        ensures
            self.laterally_linked(conductance, ambient_temperature, 0) == Ok::<
                EntityModel,
                TuasLibError,
            >(self.solid_array),
            forall|i: int|
                0 <= i < self.number_of_nodes
                    ==> #[trigger] self.solid_array.column()->Some_0.net_heat_rate(i) == 0,
            self.solid_array.advanced(timestep) matches Ok(after) && after.column() matches Some(
                column,
            ) && column.enthalpy == self.solid_array.column()->Some_0.enthalpy && column.temperature
                == self.solid_array.column()->Some_0.temperature,
    {
        let column = self.solid_array.column()->Some_0;
        let n = self.number_of_nodes;
        let ambient = uniform(n, ambient_temperature);
        assert forall|i: int| 0 <= i < column.len() implies #[trigger] ambient[i]
            == column.temperature[i] by {
            assert(column.temperature[i] == ambient_temperature);
        }
        column.lemma_link_to_own_temperatures_registers_nothing(conductance, ambient);
        lemma_even_shares_sum_to_one(n);
        column.lemma_no_power_registers_nothing(even_shares(n));
        assert(self.solid_array.with_column(column) == self.solid_array);
        let cooled = self.solid_array.with_lateral_temperatures(conductance, ambient);
        assert(cooled == Ok::<EntityModel, TuasLibError>(self.solid_array));
        let heated = self.solid_array.with_lateral_power(0, even_shares(n));
        assert(heated == Ok::<EntityModel, TuasLibError>(self.solid_array));
        assert(column.with_end_heat_rate(AxialEnd::Front, 0) == column);
        assert(column.with_end_heat_rate(AxialEnd::Back, 0) == column);
        assert(with_adiabatic_ends(self.solid_array) == Ok::<EntityModel, TuasLibError>(
            self.solid_array,
        ));
        assert forall|i: int| 0 <= i < column.len() implies #[trigger] column.temperature[i]
            == column.temperature[0] by {
            assert(column.temperature[0] == ambient_temperature);
        }
        column.lemma_uniform_chain_at_rest_has_no_heat();
        column.lemma_step_without_heat_changes_nothing(timestep);
    }

    /// The lateral links of a step hand the structure the whole power.
    /// What the nodes gain in all is what the film hands them and
    /// `total_power`: nothing of the power is lost where the nodes cannot
    /// share it evenly.
    pub proof fn lemma_links_hand_over_the_whole_power(
        self,
        conductance: ThermalConductance,
        ambient_temperature: ThermodynamicTemperature,
        total_power: Power,
    )
        requires
            self.wf(),
            self.laterally_linked(conductance, ambient_temperature, total_power) is Ok,
        ensures
            total(
                self.laterally_linked(
                    conductance,
                    ambient_temperature,
                    total_power,
                )->Ok_0.column()->Some_0.lateral_heat_rate,
            ) == total(self.solid_array.column()->Some_0.lateral_heat_rate)
                + self.solid_array.column()->Some_0.lateral_link_rate_below(
                conductance,
                uniform(self.number_of_nodes, ambient_temperature),
                self.number_of_nodes as int,
            ) + total_power,
    {
        let column = self.solid_array.column()->Some_0;
        let n = self.number_of_nodes;
        let ambient = uniform(n, ambient_temperature);
        let cooled = column.with_lateral_temperatures(conductance, ambient)->Ok_0;
        let heated = cooled.with_lateral_power(total_power, even_shares(n))->Ok_0;
        column.lemma_lateral_link_adds(conductance, ambient, n as int);
        assert(cooled.lateral_heat_rate.take(n as int) == cooled.lateral_heat_rate);
        assert(column.lateral_heat_rate.take(n as int) == column.lateral_heat_rate);
        lemma_even_shares_sum_to_one(n);
        assert(cooled.wf());
        cooled.lemma_whole_power_is_handed_out(total_power, even_shares(n));
    }

    /// A structure without a film to its surroundings keeps its heat: with
    /// a conductance of zero and no power the lateral links of a step
    /// register no heat at any node, and the step after them, where it
    /// succeeds, leaves the sum of the enthalpies of the nodes as it was.
    pub proof fn lemma_isolated_structure_keeps_its_heat(
        self,
        ambient_temperature: ThermodynamicTemperature,
        timestep: Time,
    )
        requires
            self.wf(),
            self.solid_array.column()->Some_0.unlinked(),
            self.solid_array.advanced(timestep) is Ok,
        ensures
            self.laterally_linked(0, ambient_temperature, 0) == Ok::<EntityModel, TuasLibError>(
                self.solid_array,
            ),
            total(self.solid_array.advanced(timestep)->Ok_0.column()->Some_0.enthalpy) == total(
                self.solid_array.column()->Some_0.enthalpy,
            ),
    {
        let column = self.solid_array.column()->Some_0;
        let n = self.number_of_nodes;
        let ambient = uniform(n, ambient_temperature);
        assert forall|i: int| 0 <= i < column.len() implies column.lateral_heat_rate[i] + 0 * (
        ambient[i] - column.temperature[i]) == #[trigger] column.lateral_heat_rate[i] by {
            assert(0 * (ambient[i] - column.temperature[i]) == 0);
        }
        let linked = column.with_lateral_temperatures(0, ambient);
        assert(linked is Ok);
        assert(linked->Ok_0.lateral_heat_rate =~= column.lateral_heat_rate);
        assert(linked->Ok_0 == column);
        lemma_even_shares_sum_to_one(n);
        column.lemma_no_power_registers_nothing(even_shares(n));
        assert(self.solid_array.with_column(column) == self.solid_array);
        assert(column.with_end_heat_rate(AxialEnd::Front, 0) == column);
        assert(column.with_end_heat_rate(AxialEnd::Back, 0) == column);
        assert(with_adiabatic_ends(self.solid_array) == Ok::<EntityModel, TuasLibError>(
            self.solid_array,
        ));
        column.lemma_step_conserves_energy(timestep);
        lemma_total_of_zeros(column.lateral_heat_rate);
        assert(timestep * 0 == 0);
    }

    /// The conductance from the surroundings to one node of a solid cylinder
    /// of diameter `cylinder_diameter` whose own resistance is negligible:
    /// the film on the lateral surface of the node, `h pi D L / n`.
    pub open spec fn ambient_to_cylinder_conductance(
        self,
        heat_transfer_coeff: HeatTransfer,
        cylinder_diameter: Length,
    ) -> Result<ThermalConductance, TuasLibError> {
        if !(self.solid_array is SolidArray) {
            Err(TuasLibError::TypeConversionError)
        } else {
            match nodal_share(self.structure_length, self.number_of_nodes) {
                Ok(length) => match cylinder_lateral_area(cylinder_diameter, length) {
                    Ok(area) => convective_conductance(heat_transfer_coeff, area),
                    Err(e) => Err(e),
                },
                Err(e) => Err(e),
            }
        }
    }

    /// The conductance from the surroundings to the middle of the wall of
    /// one node of a hollow cylinder: the film on the outer surface in
    /// series with the outer half of the wall, whose conductivity is taken
    /// at the bulk temperature of the structure.
    pub open spec fn ambient_to_hollow_cylinder_conductance(
        self,
        heat_transfer_coeff: HeatTransfer,
        cylinder_od: Length,
        outer_half_shape_factor: Length,
    ) -> Result<ThermalConductance, TuasLibError> {
        match self.solid_array {
            EntityModel::SolidArray(array) => match array.column.material.thermal_conductivity_at(
                array.column.bulk_temperature(),
            ) {
                Ok(conductivity) => match nodal_share(self.structure_length, self.number_of_nodes) {
                    Ok(length) => cylindrical_conductance(
                        DataCylindricalConductionConvection {
                            solid_conductivity: conductivity,
                            solid_shape_factor: outer_half_shape_factor,
                            heat_transfer_coeff,
                            film_diameter: cylinder_od,
                            node_length: length,
                        },
                    ),
                    Err(e) => Err(e),
                },
                Err(e) => Err(e),
            },
            _ => Err(TuasLibError::TypeConversionError),
        }
    }
}

/// A solid body that is discretised along its length only: one column of
/// control volumes that exchanges heat with its surroundings.
#[derive(Clone, Debug, PartialEq)]
pub struct SolidStructure {
    number_of_nodes: usize,
    /// The control volumes of the body.
    pub solid_array: HeatTransferEntity,
    structure_length: Length,
}

impl View for SolidStructure {
    type V = SolidStructureModel;

    closed spec fn view(&self) -> SolidStructureModel {
        SolidStructureModel {
            number_of_nodes: self.number_of_nodes as nat,
            solid_array: self.solid_array@,
            structure_length: self.structure_length,
        }
    }
}

impl SolidStructure {
    /// The structure that `solid_array` makes up.
    pub fn new(solid_array: SolidColumn) -> (structure: SolidStructure)
        ensures
            structure@ == (SolidStructureModel {
                number_of_nodes: solid_array@.column.len() as nat,
                solid_array: EntityModel::SolidArray(solid_array@),
                structure_length: solid_array@.component_length,
            }),
            solid_array@.column.mass_flowrate == 0 ==> structure@.wf(),
    {
        let number_of_nodes: usize = solid_array.column().number_of_nodes();
        let structure_length: i64 = solid_array.get_component_length();
        SolidStructure {
            number_of_nodes,
            solid_array: HeatTransferEntity::ControlVolume(CVType::SolidArrayCV(solid_array)),
            structure_length,
        }
    }

    /// A copy of the structure.
    pub fn duplicate(&self) -> (copy: SolidStructure)
        ensures
            copy@ == self@,
    {
        SolidStructure {
            number_of_nodes: self.number_of_nodes,
            solid_array: self.solid_array.duplicate(),
            structure_length: self.structure_length,
        }
    }

    /// Links the structure for one step: every node to the ambient
    /// temperature through `solid_array_to_ambient_nodal_conductance`, every
    /// node to its even share of `total_power_input_into_column`, and both
    /// ends to the boundary through which no heat passes. The conductance is
    /// that of one node, the power that of the whole structure.
    ///
    /// Fails with a conversion error where the solid array is no solid
    /// column, with a dimension mismatch where it has another number of
    /// nodes than the structure was made with, and with a value that is not
    /// representable where a heat rate is. A failure changes nothing.
    pub fn link_mixed_boundary_condition_laterally(
        &mut self,
        solid_array_to_ambient_nodal_conductance: ThermalConductance,
        ambient_temp: ThermodynamicTemperature,
        total_power_input_into_column: Power,
    ) -> (result: Result<(), TuasLibError>)
        ensures
            result == outcome(
                old(self)@.laterally_linked(
                    solid_array_to_ambient_nodal_conductance,
                    ambient_temp,
                    total_power_input_into_column,
                ),
            ),
            final(self)@ == old(self)@.with_solid_array(
                state_after(
                    old(self)@.laterally_linked(
                        solid_array_to_ambient_nodal_conductance,
                        ambient_temp,
                        total_power_input_into_column,
                    ),
                    old(self)@.solid_array,
                ),
            ),
            old(self)@.wf() ==> final(self)@.wf(),
    {
        proof {
            if self@.wf() {
                self@.lemma_links_keep_validity(
                    solid_array_to_ambient_nodal_conductance,
                    ambient_temp,
                    total_power_input_into_column,
                );
            }
        }
        match &self.solid_array {
            HeatTransferEntity::ControlVolume(CVType::SolidArrayCV(_)) => {},
            _ => {
                return Err(TuasLibError::TypeConversionError);
            },
        }
        // the power is spread evenly over the nodes
        let number_of_temperature_nodes: usize = self.number_of_nodes;
        let q_frac_arr: PowerFractions = get_even_shares(number_of_temperature_nodes);
        let ambient_temperature_vector: Vec<i64> = filled(number_of_temperature_nodes, ambient_temp);
        let mut solid_array_clone: HeatTransferEntity = self.solid_array.duplicate();
        match solid_array_clone.lateral_link_new_temperature_vector_avg_conductance(
            solid_array_to_ambient_nodal_conductance,
            ambient_temperature_vector,
        ) {
            Ok(()) => {},
            Err(e) => {
                return Err(e);
            },
        }
        match solid_array_clone.lateral_link_new_power_vector(
            total_power_input_into_column,
            q_frac_arr,
        ) {
            Ok(()) => {},
            Err(e) => {
                return Err(e);
            },
        }
        match link_adiabatic_ends(&mut solid_array_clone) {
            Ok(()) => {},
            Err(e) => {
                return Err(e);
            },
        }
        self.solid_array = solid_array_clone;
        Ok(())
    }

    /// Links the structure for one step as
    /// `link_mixed_boundary_condition_laterally` does, with no power.
    pub fn link_ambient_temperature_boundary_condition_laterally(
        &mut self,
        solid_array_to_ambient_nodal_conductance: ThermalConductance,
        ambient_temp: ThermodynamicTemperature,
    ) -> (result: Result<(), TuasLibError>)
        ensures
            result == outcome(
                old(self)@.laterally_linked(
                    solid_array_to_ambient_nodal_conductance,
                    ambient_temp,
                    0,
                ),
            ),
            final(self)@ == old(self)@.with_solid_array(
                state_after(
                    old(self)@.laterally_linked(
                        solid_array_to_ambient_nodal_conductance,
                        ambient_temp,
                        0,
                    ),
                    old(self)@.solid_array,
                ),
            ),
            old(self)@.wf() ==> final(self)@.wf(),
    {
        self.link_mixed_boundary_condition_laterally(
            solid_array_to_ambient_nodal_conductance,
            ambient_temp,
            0,
        )
    }

    /// Links both ends of the structure to the boundary through which no
    /// heat passes. Another link may be made to either end afterwards, and
    /// then counts in its place.
    pub fn zero_power_bc_connection(&mut self) -> (result: Result<(), TuasLibError>)
        ensures
            result == outcome(with_adiabatic_ends(old(self)@.solid_array)),
            final(self)@ == old(self)@.with_solid_array(
                state_after(
                    with_adiabatic_ends(old(self)@.solid_array),
                    old(self)@.solid_array,
                ),
            ),
            old(self)@.wf() ==> final(self)@.wf(),
    {
        proof {
            if self@.wf() {
                self@.lemma_adiabatic_ends_keep_validity();
            }
        }
        link_adiabatic_ends(&mut self.solid_array)
    }

    /// Advances the structure by `timestep` and consumes its links. Fails
    /// with a range error where the material is not defined at the new
    /// specific enthalpy of a node. A failure changes nothing.
    pub fn advance_timestep(&mut self, timestep: Time) -> (result: Result<(), TuasLibError>)
        ensures
            result == outcome(old(self)@.solid_array.advanced(timestep)),
            final(self)@ == old(self)@.with_solid_array(
                state_after(old(self)@.solid_array.advanced(timestep), old(self)@.solid_array),
            ),
            old(self)@.wf() ==> final(self)@.wf(),
    {
        proof {
            if self@.wf() {
                self@.lemma_step_keeps_validity(timestep);
            }
        }
        self.solid_array.advance_timestep(timestep)
    }

    /// The temperatures of the nodes of the structure.
    pub fn array_temperature(&mut self) -> (result: Result<
        Vec<ThermodynamicTemperature>,
        TuasLibError,
    >)
        ensures
            final(self)@ == old(self)@,
            match result {
                Ok(temperatures) => old(self)@.solid_array.temperature_vector() == Ok::<
                    Seq<i64>,
                    TuasLibError,
                >(temperatures@),
                Err(e) => old(self)@.solid_array.temperature_vector() == Err::<
                    Seq<i64>,
                    TuasLibError,
                >(e),
            },
            old(self)@.wf() ==> result is Ok && result->Ok_0@.len() == old(self)@.number_of_nodes,
    {
        self.solid_array.get_temperature_vector()
    }

    /// The conductance from the surroundings to one node of the structure,
    /// taken as a solid cylinder of diameter `cylinder_diameter` whose own
    /// resistance is negligible. The ambient temperature has no influence.
    pub fn get_ambient_surroundings_to_cylinder_thermal_conductance(
        &mut self,
        h_air_to_pipe_surf: HeatTransfer,
        cylinder_diameter: Length,
        ambient_temp: ThermodynamicTemperature,
    ) -> (result: Result<ThermalConductance, TuasLibError>)
        ensures
            final(self)@ == old(self)@,
            result == old(self)@.ambient_to_cylinder_conductance(
                h_air_to_pipe_surf,
                cylinder_diameter,
            ),
    {
        match &self.solid_array {
            HeatTransferEntity::ControlVolume(CVType::SolidArrayCV(_)) => {},
            _ => {
                return Err(TuasLibError::TypeConversionError);
            },
        }
        let node_length: i64 = match try_get_nodal_share(
            self.structure_length,
            self.number_of_nodes,
        ) {
            Ok(length) => length,
            Err(e) => {
                return Err(e);
            },
        };
        let surface_area_per_node: i64 = match try_get_cylinder_lateral_area(
            cylinder_diameter,
            node_length,
        ) {
            Ok(area) => area,
            Err(e) => {
                return Err(e);
            },
        };
        let pipe_air_conductance_interaction =
            HeatTransferInteractionType::UserSpecifiedConvectionResistance(
            DataUserSpecifiedConvectionResistance {
                surf_area: surface_area_per_node,
                heat_transfer_coeff: h_air_to_pipe_surf,
            },
        );
        try_get_thermal_conductance_based_on_interaction(pipe_air_conductance_interaction)
    }

    /// The conductance from the surroundings to the middle of the wall of
    /// one node of the structure, taken as a hollow cylinder of outer
    /// diameter `cylinder_od`. `outer_half_shape_factor` is the shape factor
    /// of the outer half of the wall of one node, `2 pi L / ln(od / d_mid)`
    /// with `d_mid` the mean of the inner and the outer diameter. The
    /// ambient temperature has no influence.
    pub fn get_ambient_surroundings_to_hollow_cylinder_thermal_conductance(
        &mut self,
        h_air_to_pipe_surf: HeatTransfer,
        cylinder_od: Length,
        outer_half_shape_factor: Length,
        ambient_temp: ThermodynamicTemperature,
    ) -> (result: Result<ThermalConductance, TuasLibError>)
        ensures
            final(self)@ == old(self)@,
            result == old(self)@.ambient_to_hollow_cylinder_conductance(
                h_air_to_pipe_surf,
                cylinder_od,
                outer_half_shape_factor,
            ),
    {
        let conductivity: i64 = match &self.solid_array {
            HeatTransferEntity::ControlVolume(CVType::SolidArrayCV(array)) => {
                let insulation_shell_temperature: i64 = array.column().bulk_temperature();
                match array.material_control_volume().try_get_thermal_conductivity(
                    insulation_shell_temperature,
                ) {
                    Ok(conductivity) => conductivity,
                    Err(e) => {
                        return Err(e);
                    },
                }
            },
            _ => {
                return Err(TuasLibError::TypeConversionError);
            },
        };
        let node_length: i64 = match try_get_nodal_share(
            self.structure_length,
            self.number_of_nodes,
        ) {
            Ok(length) => length,
            Err(e) => {
                return Err(e);
            },
        };
        let pipe_air_conductance_interaction =
            HeatTransferInteractionType::CylindricalConductionConvectionLiquidOutside(
            DataCylindricalConductionConvection {
                solid_conductivity: conductivity,
                solid_shape_factor: outer_half_shape_factor,
                heat_transfer_coeff: h_air_to_pipe_surf,
                film_diameter: cylinder_od,
                node_length,
            },
        );
        try_get_thermal_conductance_based_on_interaction(pipe_air_conductance_interaction)
    }
}

} // verus!
