use vstd::prelude::*;
use crate::array_control_vol::column::{outcome, state_after, ColumnModel, ControlVolumeColumn};
use crate::array_control_vol::power_fractions::PowerFractions;
use crate::boussinesq_thermophysical_properties::material::{Material, MaterialModel};
use crate::heat_transfer_correlations::darcy_loss_correlations::DimensionlessDarcyLossCorrelations;
use crate::tuas_lib_error::TuasLibError;
use crate::units::{
    Area, HeatRate, Length, MassRate, Power, Pressure, ThermalConductance,
    ThermodynamicTemperature, Time,
};

verus! {

/// What a fluid array is to this library: a chain of control volumes along a
/// flow path, with the geometry of the path.
pub struct FluidArrayModel {
    pub column: ColumnModel,
    pub component_length: Length,
    pub hydraulic_diameter: Length,
    pub cross_sectional_area: Area,
    /// The pressure loss correlation of the flow path.
    pub fluid_component_loss_properties: DimensionlessDarcyLossCorrelations,
}

/// The loss correlation of a flow path that has none yet: a loss coefficient
/// of zero.
pub open spec fn no_loss() -> DimensionlessDarcyLossCorrelations {
    DimensionlessDarcyLossCorrelations::SimpleReynoldsPower { a: 0, b: 0, c: 0 }
}

impl FluidArrayModel {
    /// An array has its two end nodes at least.
    pub open spec fn wf(self) -> bool {
        self.column.wf() && self.column.len() >= 2
    }

    pub open spec fn with_column(self, column: ColumnModel) -> FluidArrayModel {
        FluidArrayModel { column, ..self }
    }

    /// A fluid array, where it can be made, has `inner_nodes + 2` nodes, all
    /// at the initial temperature.
    pub proof fn lemma_initial_is_fresh(
        component_length: Length,
        hydraulic_diameter: Length,
        cross_sectional_area: Area,
        initial_temperature: ThermodynamicTemperature,
        pressure: Pressure,
        material: MaterialModel,
        inner_nodes: nat,
    )
        requires
            material.wf(),
            FluidArrayModel::initial(
                component_length,
                hydraulic_diameter,
                cross_sectional_area,
                initial_temperature,
                pressure,
                material,
                inner_nodes,
            ) is Ok,
        ensures
            ({
                let array = FluidArrayModel::initial(
                    component_length,
                    hydraulic_diameter,
                    cross_sectional_area,
                    initial_temperature,
                    pressure,
                    material,
                    inner_nodes,
                )->Ok_0;
                array.wf() && array.column.fresh(inner_nodes + 2, initial_temperature)
                    && array.component_length == component_length
            }),
    {
        ColumnModel::lemma_initial_prism_is_fresh(
            material,
            pressure,
            cross_sectional_area,
            component_length,
            inner_nodes + 2,
            initial_temperature,
        );
    }

    pub open spec fn with_loss_correlation(
        self,
        correlation: DimensionlessDarcyLossCorrelations,
    ) -> FluidArrayModel {
        FluidArrayModel { fluid_component_loss_properties: correlation, ..self }
    }

    /// The array of `inner_nodes + 2` nodes that fills a flow path of the
    /// given length and flow area with the fluid at `initial_temperature`,
    /// with no pressure loss until a loss correlation is set.
    pub open spec fn initial(
        component_length: Length,
        hydraulic_diameter: Length,
        cross_sectional_area: Area,
        initial_temperature: ThermodynamicTemperature,
        pressure: Pressure,
        material: MaterialModel,
        inner_nodes: nat,
    ) -> Result<FluidArrayModel, TuasLibError> {
        if inner_nodes + 2 > usize::MAX {
            Err(TuasLibError::DimensionMismatch)
        } else if !material.is_liquid() {
            Err(TuasLibError::TypeConversionError)
        } else {
            match ColumnModel::initial_prism(
                material,
                pressure,
                cross_sectional_area,
                component_length,
                inner_nodes + 2,
                initial_temperature,
            ) {
                Ok(column) => Ok(
                    FluidArrayModel {
                        column,
                        component_length,
                        hydraulic_diameter,
                        cross_sectional_area,
                        fluid_component_loss_properties: no_loss(),
                    },
                ),
                Err(e) => Err(e),
            }
        }
    }
}

/// A one-dimensional array of fluid control volumes: two end nodes and the
/// inner nodes between them, from the back, where a positive flow enters, to
/// the front, where it leaves.
#[derive(Clone, Debug, PartialEq)]
pub struct FluidArray {
    column: ControlVolumeColumn,
    component_length: Length,
    hydraulic_diameter: Length,
    cross_sectional_area: Area,
    fluid_component_loss_properties: DimensionlessDarcyLossCorrelations,
}

impl View for FluidArray {
    type V = FluidArrayModel;

    closed spec fn view(&self) -> FluidArrayModel {
        FluidArrayModel {
            column: self.column@,
            component_length: self.component_length,
            hydraulic_diameter: self.hydraulic_diameter,
            cross_sectional_area: self.cross_sectional_area,
            fluid_component_loss_properties: self.fluid_component_loss_properties,
        }
    }
}

impl FluidArray {
    /// The array of `user_specified_inner_nodes + 2` nodes that fills a flow
    /// path of the given length and flow area with the fluid at
    /// `initial_temperature`, at rest.
    ///
    /// Fails with a dimension mismatch where the number of nodes does not fit
    /// the machine, with a conversion error where the material is no liquid,
    /// with a range error where the fluid is not defined at
    /// `initial_temperature`, and with a value that is not representable
    /// where the mass of the fluid is, or where a node would have no mass.
    pub fn new_odd_shaped_pipe(
        component_length: Length,
        hydraulic_diameter: Length,
        cross_sectional_area: Area,
        initial_temperature: ThermodynamicTemperature,
        pressure: Pressure,
        material: Material,
        user_specified_inner_nodes: usize,
    ) -> (result: Result<FluidArray, TuasLibError>)
        ensures
            match result {
                Ok(array) => FluidArrayModel::initial(
                    component_length,
                    hydraulic_diameter,
                    cross_sectional_area,
                    initial_temperature,
                    pressure,
                    material@,
                    user_specified_inner_nodes as nat,
                ) == Ok::<FluidArrayModel, TuasLibError>(array@),
                Err(e) => FluidArrayModel::initial(
                    component_length,
                    hydraulic_diameter,
                    cross_sectional_area,
                    initial_temperature,
                    pressure,
                    material@,
                    user_specified_inner_nodes as nat,
                ) == Err::<FluidArrayModel, TuasLibError>(e),
            },
            result matches Ok(array) ==> array@.wf() && array@.column.fresh(
                (user_specified_inner_nodes + 2) as nat,
                initial_temperature,
            ),
    {
        let number_of_nodes: usize = match user_specified_inner_nodes.checked_add(2) {
            Some(n) => n,
            None => {
                return Err(TuasLibError::DimensionMismatch);
            },
        };
        if !material.is_liquid() {
            return Err(TuasLibError::TypeConversionError);
        }
        match ControlVolumeColumn::new_prism(
            material,
            pressure,
            cross_sectional_area,
            component_length,
            number_of_nodes,
            initial_temperature,
        ) {
            Ok(column) => {
                proof {
                    use_type_invariant(&column);
                }
                Ok(
                    FluidArray {
                        column,
                        component_length,
                        hydraulic_diameter,
                        cross_sectional_area,
                        fluid_component_loss_properties: DimensionlessDarcyLossCorrelations::SimpleReynoldsPower {
                            a: 0,
                            b: 0,
                            c: 0,
                        },
                    },
                )
            },
            Err(e) => Err(e),
        }
    }

    pub fn get_component_length(&self) -> (length: Length)
        ensures
            length == self@.component_length,
    {
        self.component_length
    }

    pub fn get_hydraulic_diameter(&self) -> (diameter: Length)
        ensures
            diameter == self@.hydraulic_diameter,
    {
        self.hydraulic_diameter
    }

    pub fn get_cross_sectional_area(&self) -> (area: Area)
        ensures
            area == self@.cross_sectional_area,
    {
        self.cross_sectional_area
    }

    /// The pressure loss correlation of the flow path.
    pub fn get_fluid_component_loss_properties(&self) -> (correlation:
        DimensionlessDarcyLossCorrelations)
        ensures
            correlation == self@.fluid_component_loss_properties,
    {
        self.fluid_component_loss_properties
    }

    /// Sets the pressure loss correlation of the flow path. The temperatures
    /// do not depend on it.
    pub fn set_fluid_component_loss_properties(
        &mut self,
        correlation: DimensionlessDarcyLossCorrelations,
    )
        ensures
            final(self)@ == old(self)@.with_loss_correlation(correlation),
    {
        self.fluid_component_loss_properties = correlation;
    }

    /// The mass flow through the array, positive from the back to the front.
    pub fn get_mass_flowrate(&self) -> (mass_flowrate: MassRate)
        ensures
            mass_flowrate == self@.column.mass_flowrate,
    {
        self.column.mass_flowrate()
    }

    /// Sets the mass flow through the array, positive from the back to the
    /// front. Inside the array each node hands the next one downstream its
    /// own specific enthalpy times the mass flow.
    pub fn set_mass_flowrate(&mut self, mass_flowrate: MassRate)
        ensures
            final(self)@ == old(self)@.with_column(
                ColumnModel { mass_flowrate, ..old(self)@.column },
            ),
    {
        self.column.set_mass_flowrate(mass_flowrate);
    }

    /// A copy of the array.
    pub fn duplicate(&self) -> (copy: FluidArray)
        ensures
            copy@ == self@,
    {
        FluidArray {
            column: self.column.duplicate(),
            component_length: self.component_length,
            hydraulic_diameter: self.hydraulic_diameter,
            cross_sectional_area: self.cross_sectional_area,
            fluid_component_loss_properties: self.fluid_component_loss_properties,
        }
    }

    /// The chain of control volumes that holds the state of the nodes.
    pub fn column(&self) -> (column: &ControlVolumeColumn)
        ensures
            column@ == self@.column,
            column@.wf(),
    {
        proof {
            use_type_invariant(&self.column);
        }
        &self.column
    }

    /// The temperatures of the nodes, from the back to the front. Reading
    /// them changes nothing: a second reading returns the same.
    pub fn get_temperature_vector(&mut self) -> (result: Result<
        Vec<ThermodynamicTemperature>,
        TuasLibError,
    >)
        ensures
            final(self)@ == old(self)@,
            result matches Ok(temperatures) && temperatures@ == old(self)@.column.temperature,
    {
        Ok(self.column.temperature_vector())
    }

    /// The mean of the temperatures of the nodes.
    pub fn try_get_bulk_temperature(&self) -> (result: Result<
        ThermodynamicTemperature,
        TuasLibError,
    >)
        ensures
            result matches Ok(temperature) && temperature == self@.column.bulk_temperature(),
    {
        Ok(self.column.bulk_temperature())
    }

    /// The material of the nodes.
    pub fn material_control_volume(&self) -> (material: &Material)
        ensures
            material@ == self@.column.material,
    {
        self.column.material()
    }

    /// The pressure of the nodes.
    pub fn pressure_control_volume(&self) -> (pressure: Pressure)
        ensures
            pressure == self@.column.pressure,
    {
        self.column.pressure()
    }

    /// Registers a lateral link of conductance `conductance` from each node
    /// `i` to the temperature `temperatures[i]`: the node gains the heat rate
    /// `conductance * (temperatures[i] - temperature of node i)`.
    ///
    /// Fails with a dimension mismatch unless there is one temperature for
    /// each node, and with a value that is not representable where the heat
    /// rate registered at a node leaves 128 bits. A failure changes nothing.
    pub fn lateral_link_new_temperature_vector_avg_conductance(
        &mut self,
        conductance: ThermalConductance,
        temperatures: Vec<ThermodynamicTemperature>,
    ) -> (result: Result<(), TuasLibError>)
        ensures
            result == outcome(
                old(self)@.column.with_lateral_temperatures(conductance, temperatures@),
            ),
            final(self)@ == old(self)@.with_column(
                state_after(
                    old(self)@.column.with_lateral_temperatures(conductance, temperatures@),
                    old(self)@.column,
                ),
            ),
            temperatures@.len() != old(self)@.column.len() ==> result == Err::<(), TuasLibError>(
                TuasLibError::DimensionMismatch,
            ),
            result is Err ==> final(self)@ == old(self)@,
    {
        self.column.lateral_link_new_temperature_vector_avg_conductance(conductance, &temperatures)
    }

    /// Registers a lateral link that hands each node `i` the share
    /// `fractions[i]`, in millionths, of the power `total_power`.
    ///
    /// Fails with a dimension mismatch unless there is one share for each
    /// node and the shares sum to one, give or take one millionth per node,
    /// and with a value that is not representable where the heat rate
    /// registered at a node leaves 128 bits. A failure changes nothing.
    pub fn lateral_link_new_power_vector(&mut self, total_power: Power, fractions: PowerFractions) -> (result:
        Result<(), TuasLibError>)
        ensures
            result == outcome(old(self)@.column.with_lateral_power(total_power, fractions@)),
            final(self)@ == old(self)@.with_column(
                state_after(
                    old(self)@.column.with_lateral_power(total_power, fractions@),
                    old(self)@.column,
                ),
            ),
            fractions@.len() != old(self)@.column.len() ==> result == Err::<(), TuasLibError>(
                TuasLibError::DimensionMismatch,
            ),
            result is Err ==> final(self)@ == old(self)@,
    {
        let shares: Vec<i64> = fractions.to_vec();
        self.column.lateral_link_new_power_vector(total_power, &shares)
    }

    /// Sets the heat rate of the axial link at the front; an earlier link at
    /// the front is replaced.
    pub fn link_front_heat_rate(&mut self, heat_rate: HeatRate)
        ensures
            final(self)@ == old(self)@.with_column(
                ColumnModel { front_heat_rate: heat_rate, ..old(self)@.column },
            ),
    {
        self.column.link_front_heat_rate(heat_rate);
    }

    /// Sets the heat rate of the axial link at the back; an earlier link at
    /// the back is replaced.
    pub fn link_back_heat_rate(&mut self, heat_rate: HeatRate)
        ensures
            final(self)@ == old(self)@.with_column(
                ColumnModel { back_heat_rate: heat_rate, ..old(self)@.column },
            ),
    {
        self.column.link_back_heat_rate(heat_rate);
    }

    /// Advances every node by `timestep` and consumes the links.
    ///
    /// Fails with a range error where the material is not defined at the new
    /// specific enthalpy of a node. A failure changes nothing.
    pub fn advance_timestep(&mut self, timestep: Time) -> (result: Result<(), TuasLibError>)
        ensures
            result == outcome(old(self)@.column.advanced(timestep)),
            final(self)@ == old(self)@.with_column(
                state_after(old(self)@.column.advanced(timestep), old(self)@.column),
            ),
    {
        self.column.advance_timestep(timestep)
    }
}

} // verus!
