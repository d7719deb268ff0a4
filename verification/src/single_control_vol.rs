use vstd::prelude::*;
use crate::array_control_vol::column::{outcome, state_after, ColumnModel, ControlVolumeColumn};
use crate::array_control_vol::power_fractions::PowerFractions;
use crate::boussinesq_thermophysical_properties::material::{Material, MaterialModel};
use crate::tuas_lib_error::TuasLibError;
use crate::units::{
    HeatRate, Mass, Power, Pressure, ThermalConductance, ThermodynamicTemperature, Time,
};

verus! {

/// What a single control volume is to this library: a chain of one node.
pub struct SingleCVNodeModel {
    pub column: ColumnModel,
}

impl SingleCVNodeModel {
    pub open spec fn wf(self) -> bool {
        self.column.wf() && self.column.len() == 1
    }

    pub open spec fn with_column(self, column: ColumnModel) -> SingleCVNodeModel {
        SingleCVNodeModel { column }
    }

    /// The node of mass `mass` at `initial_temperature`.
    pub open spec fn initial(
        material: MaterialModel,
        pressure: Pressure,
        mass: Mass,
        initial_temperature: ThermodynamicTemperature,
    ) -> Result<SingleCVNodeModel, TuasLibError> {
        match ColumnModel::initial(material, pressure, mass, 1, initial_temperature) {
            Ok(column) => Ok(SingleCVNodeModel { column }),
            Err(e) => Err(e),
        }
    }

    /// The enthalpy of the node.
    pub open spec fn enthalpy(self) -> int {
        self.column.enthalpy[0] as int
    }

    /// The temperature of the node.
    pub open spec fn temperature(self) -> ThermodynamicTemperature {
        self.column.temperature[0]
    }
}

/// A single control volume: one thermal mass with one enthalpy and one
/// temperature. Its front and its back are two faces of the same node.
#[derive(Clone, Debug, PartialEq)]
pub struct SingleCVNode {
    column: ControlVolumeColumn,
}

impl View for SingleCVNode {
    type V = SingleCVNodeModel;

    closed spec fn view(&self) -> SingleCVNodeModel {
        SingleCVNodeModel { column: self.column@ }
    }
}

impl SingleCVNode {
    /// The node of mass `mass` at `initial_temperature`.
    ///
    /// Fails with a value that is not representable for a mass that is not
    /// positive, and with a range error where the material is not defined at
    /// `initial_temperature`.
    pub fn new(
        material: Material,
        pressure: Pressure,
        mass: Mass,
        initial_temperature: ThermodynamicTemperature,
    ) -> (result: Result<SingleCVNode, TuasLibError>)
        ensures
            match result {
                Ok(node) => SingleCVNodeModel::initial(
                    material@,
                    pressure,
                    mass,
                    initial_temperature,
                ) == Ok::<SingleCVNodeModel, TuasLibError>(node@),
                Err(e) => SingleCVNodeModel::initial(material@, pressure, mass, initial_temperature)
                    == Err::<SingleCVNodeModel, TuasLibError>(e),
            },
            result matches Ok(node) ==> node@.wf() && node@.column.fresh(1, initial_temperature),
    {
        match ControlVolumeColumn::new(material, pressure, mass, 1, initial_temperature) {
            Ok(column) => {
                proof {
                    use_type_invariant(&column);
                }
                Ok(SingleCVNode { column })
            },
            Err(e) => Err(e),
        }
    }

    /// The temperature of the node.
    pub fn get_temperature(&self) -> (temperature: ThermodynamicTemperature)
        ensures
            temperature == self@.temperature(),
    {
        self.column.back_temperature()
    }

    /// A copy of the node.
    pub fn duplicate(&self) -> (copy: SingleCVNode)
        ensures
            copy@ == self@,
    {
        SingleCVNode { column: self.column.duplicate() }
    }

    /// The chain of control volumes that holds the state of the nodes.
    pub fn column(&self) -> (column: &ControlVolumeColumn)
        ensures
            column@ == self@.column,
            column@.wf(),
    {
        proof {
            use_type_invariant(&self.column);
        }
        &self.column
    }

    /// The temperatures of the nodes, from the back to the front. Reading
    /// them changes nothing: a second reading returns the same.
    pub fn get_temperature_vector(&mut self) -> (result: Result<
        Vec<ThermodynamicTemperature>,
        TuasLibError,
    >)
        ensures
            final(self)@ == old(self)@,
            result matches Ok(temperatures) && temperatures@ == old(self)@.column.temperature,
    {
        Ok(self.column.temperature_vector())
    }

    /// The mean of the temperatures of the nodes.
    pub fn try_get_bulk_temperature(&self) -> (result: Result<
        ThermodynamicTemperature,
        TuasLibError,
    >)
        ensures
            result matches Ok(temperature) && temperature == self@.column.bulk_temperature(),
    {
        Ok(self.column.bulk_temperature())
    }

    /// The material of the nodes.
    pub fn material_control_volume(&self) -> (material: &Material)
        ensures
            material@ == self@.column.material,
    {
        self.column.material()
    }

    /// The pressure of the nodes.
    pub fn pressure_control_volume(&self) -> (pressure: Pressure)
        ensures
            pressure == self@.column.pressure,
    {
        self.column.pressure()
    }

    /// Registers a lateral link of conductance `conductance` from each node
    /// `i` to the temperature `temperatures[i]`: the node gains the heat rate
    /// `conductance * (temperatures[i] - temperature of node i)`.
    ///
    /// Fails with a dimension mismatch unless there is one temperature for
    /// each node, and with a value that is not representable where the heat
    /// rate registered at a node leaves 128 bits. A failure changes nothing.
    pub fn lateral_link_new_temperature_vector_avg_conductance(
        &mut self,
        conductance: ThermalConductance,
        temperatures: Vec<ThermodynamicTemperature>,
    ) -> (result: Result<(), TuasLibError>)
        ensures
            result == outcome(
                old(self)@.column.with_lateral_temperatures(conductance, temperatures@),
            ),
            final(self)@ == old(self)@.with_column(
                state_after(
                    old(self)@.column.with_lateral_temperatures(conductance, temperatures@),
                    old(self)@.column,
                ),
            ),
            temperatures@.len() != old(self)@.column.len() ==> result == Err::<(), TuasLibError>(
                TuasLibError::DimensionMismatch,
            ),
            result is Err ==> final(self)@ == old(self)@,
    {
        self.column.lateral_link_new_temperature_vector_avg_conductance(conductance, &temperatures)
    }

    /// Registers a lateral link that hands each node `i` the share
    /// `fractions[i]`, in millionths, of the power `total_power`.
    ///
    /// Fails with a dimension mismatch unless there is one share for each
    /// node and the shares sum to one, give or take one millionth per node,
    /// and with a value that is not representable where the heat rate
    /// registered at a node leaves 128 bits. A failure changes nothing.
    pub fn lateral_link_new_power_vector(&mut self, total_power: Power, fractions: PowerFractions) -> (result:
        Result<(), TuasLibError>)
        ensures
            result == outcome(old(self)@.column.with_lateral_power(total_power, fractions@)),
            final(self)@ == old(self)@.with_column(
                state_after(
                    old(self)@.column.with_lateral_power(total_power, fractions@),
                    old(self)@.column,
                ),
            ),
            fractions@.len() != old(self)@.column.len() ==> result == Err::<(), TuasLibError>(
                TuasLibError::DimensionMismatch,
            ),
            result is Err ==> final(self)@ == old(self)@,
    {
        let shares: Vec<i64> = fractions.to_vec();
        self.column.lateral_link_new_power_vector(total_power, &shares)
    }

    /// Sets the heat rate of the axial link at the front; an earlier link at
    /// the front is replaced.
    pub fn link_front_heat_rate(&mut self, heat_rate: HeatRate)
        ensures
            final(self)@ == old(self)@.with_column(
                ColumnModel { front_heat_rate: heat_rate, ..old(self)@.column },
            ),
    {
        self.column.link_front_heat_rate(heat_rate);
    }

    /// Sets the heat rate of the axial link at the back; an earlier link at
    /// the back is replaced.
    pub fn link_back_heat_rate(&mut self, heat_rate: HeatRate)
        ensures
            final(self)@ == old(self)@.with_column(
                ColumnModel { back_heat_rate: heat_rate, ..old(self)@.column },
            ),
    {
        self.column.link_back_heat_rate(heat_rate);
    }

    /// Advances every node by `timestep` and consumes the links.
    ///
    /// Fails with a range error where the material is not defined at the new
    /// specific enthalpy of a node. A failure changes nothing.
    pub fn advance_timestep(&mut self, timestep: Time) -> (result: Result<(), TuasLibError>)
        ensures
            result == outcome(old(self)@.column.advanced(timestep)),
            final(self)@ == old(self)@.with_column(
                state_after(old(self)@.column.advanced(timestep), old(self)@.column),
            ),
    {
        self.column.advance_timestep(timestep)
    }
}

} // verus!
