use vstd::prelude::*;
use crate::array_control_vol::column::{outcome, state_after, ColumnModel, ControlVolumeColumn};
use crate::array_control_vol::power_fractions::PowerFractions;
use crate::boussinesq_thermophysical_properties::material::{Material, MaterialModel};
use crate::tuas_lib_error::TuasLibError;
use crate::fixed_point::{quotient, representable, scale_wide};
use crate::units::{
    Area, HeatRate, Length, Power, Pressure, ThermalConductance, ThermodynamicTemperature, Time,
    PI_BILLIONTHS,
};

verus! {

/// What a solid column is to this library: a chain of control volumes along
/// a solid body, with the geometry of the body.
pub struct SolidColumnModel {
    pub column: ColumnModel,
    pub component_length: Length,
    pub cross_sectional_area: Area,
}

/// The cross section of a cylindrical shell: `pi (od^2 - id^2) / 4`.
pub open spec fn annulus_area(inner_diameter: Length, outer_diameter: Length) -> Result<
    Area,
    TuasLibError,
> {
    quotient(
        (outer_diameter * outer_diameter - inner_diameter * inner_diameter) * PI_BILLIONTHS,
        4_000_000_000,
    )
}

impl SolidColumnModel {
    /// A column has its two end nodes at least.
    pub open spec fn wf(self) -> bool {
        self.column.wf() && self.column.len() >= 2
    }

    pub open spec fn with_column(self, column: ColumnModel) -> SolidColumnModel {
        SolidColumnModel { column, ..self }
    }

    /// The column of `inner_nodes + 2` nodes that fills a prism of the given
    /// length and cross section with the material at `initial_temperature`.
    pub open spec fn initial(
        component_length: Length,
        cross_sectional_area: Area,
        initial_temperature: ThermodynamicTemperature,
        pressure: Pressure,
        material: MaterialModel,
        inner_nodes: nat,
    ) -> Result<SolidColumnModel, TuasLibError> {
        if inner_nodes + 2 > usize::MAX {
            Err(TuasLibError::DimensionMismatch)
        } else {
            match ColumnModel::initial_prism(
                material,
                pressure,
                cross_sectional_area,
                component_length,
                inner_nodes + 2,
                initial_temperature,
            ) {
                Ok(column) => Ok(SolidColumnModel { column, component_length, cross_sectional_area }),
                Err(e) => Err(e),
            }
        }
    }

    /// A solid column, where it can be made, has `inner_nodes + 2` nodes,
    /// all at the initial temperature.
    pub proof fn lemma_initial_is_fresh(
        component_length: Length,
        cross_sectional_area: Area,
        initial_temperature: ThermodynamicTemperature,
        pressure: Pressure,
        material: MaterialModel,
        inner_nodes: nat,
    )
        requires
            material.wf(),
            SolidColumnModel::initial(
                component_length,
                cross_sectional_area,
                initial_temperature,
                pressure,
                material,
                inner_nodes,
            ) is Ok,
        ensures
            ({
                let array = SolidColumnModel::initial(
                    component_length,
                    cross_sectional_area,
                    initial_temperature,
                    pressure,
                    material,
                    inner_nodes,
                )->Ok_0;
                array.wf() && array.column.fresh(inner_nodes + 2, initial_temperature)
                    && array.component_length == component_length
            }),
    {
        ColumnModel::lemma_initial_prism_is_fresh(
            material,
            pressure,
            cross_sectional_area,
            component_length,
            inner_nodes + 2,
            initial_temperature,
        );
    }

    /// The column that fills a cylindrical shell.
    pub open spec fn initial_cylindrical_shell(
        component_length: Length,
        inner_diameter: Length,
        outer_diameter: Length,
        initial_temperature: ThermodynamicTemperature,
        pressure: Pressure,
        material: MaterialModel,
        inner_nodes: nat,
    ) -> Result<SolidColumnModel, TuasLibError> {
        match annulus_area(inner_diameter, outer_diameter) {
            Ok(area) => SolidColumnModel::initial(
                component_length,
                area,
                initial_temperature,
                pressure,
                material,
                inner_nodes,
            ),
            Err(e) => Err(e),
        }
    }

    /// The column that fills a block of rectangular cross section.
    pub open spec fn initial_block(
        component_length: Length,
        thickness: Length,
        width: Length,
        initial_temperature: ThermodynamicTemperature,
        pressure: Pressure,
        material: MaterialModel,
        inner_nodes: nat,
    ) -> Result<SolidColumnModel, TuasLibError> {
        match representable(thickness * width) {
            Ok(area) => SolidColumnModel::initial(
                component_length,
                area,
                initial_temperature,
                pressure,
                material,
                inner_nodes,
            ),
            Err(e) => Err(e),
        }
    }
}

/// A one-dimensional column of solid control volumes: two end nodes and the
/// inner nodes between them, from the back to the front.
#[derive(Clone, Debug, PartialEq)]
pub struct SolidColumn {
    column: ControlVolumeColumn,
    component_length: Length,
    cross_sectional_area: Area,
}

impl View for SolidColumn {
    type V = SolidColumnModel;

    closed spec fn view(&self) -> SolidColumnModel {
        SolidColumnModel {
            column: self.column@,
            component_length: self.component_length,
            cross_sectional_area: self.cross_sectional_area,
        }
    }
}

impl SolidColumn {
    /// The column of `user_specified_inner_nodes + 2` nodes that fills a
    /// prism of the given length and cross section with the material at
    /// `initial_temperature`.
    ///
    /// Fails with a dimension mismatch where the number of nodes does not fit
    /// the machine, with a range error where the material is not defined at
    /// `initial_temperature`, and with a value that is not representable
    /// where the mass of the body is, or where a node would have no mass.
    pub fn new_prism(
        component_length: Length,
        cross_sectional_area: Area,
        initial_temperature: ThermodynamicTemperature,
        pressure: Pressure,
        material: Material,
        user_specified_inner_nodes: usize,
    ) -> (result: Result<SolidColumn, TuasLibError>)
        ensures
            match result {
                Ok(array) => SolidColumnModel::initial(
                    component_length,
                    cross_sectional_area,
                    initial_temperature,
                    pressure,
                    material@,
                    user_specified_inner_nodes as nat,
                ) == Ok::<SolidColumnModel, TuasLibError>(array@),
                Err(e) => SolidColumnModel::initial(
                    component_length,
                    cross_sectional_area,
                    initial_temperature,
                    pressure,
                    material@,
                    user_specified_inner_nodes as nat,
                ) == Err::<SolidColumnModel, TuasLibError>(e),
            },
            result matches Ok(array) ==> array@.wf() && array@.column.fresh(
                (user_specified_inner_nodes + 2) as nat,
                initial_temperature,
            ),
    {
        let number_of_nodes: usize = match user_specified_inner_nodes.checked_add(2) {
            Some(n) => n,
            None => {
                return Err(TuasLibError::DimensionMismatch);
            },
        };
        match ControlVolumeColumn::new_prism(
            material,
            pressure,
            cross_sectional_area,
            component_length,
            number_of_nodes,
            initial_temperature,
        ) {
            Ok(column) => {
                proof {
                    use_type_invariant(&column);
                }
                Ok(SolidColumn { column, component_length, cross_sectional_area })
            },
            Err(e) => Err(e),
        }
    }

    /// The column that fills a cylindrical shell of the given length and
    /// diameters. Fails as `new_prism` does, and with a value that is not
    /// representable where the cross section of the shell is.
    pub fn new_cylindrical_shell(
        component_length: Length,
        inner_diameter: Length,
        outer_diameter: Length,
        initial_temperature: ThermodynamicTemperature,
        pressure: Pressure,
        material: Material,
        user_specified_inner_nodes: usize,
    ) -> (result: Result<SolidColumn, TuasLibError>)
        ensures
            match result {
                Ok(array) => SolidColumnModel::initial_cylindrical_shell(
                    component_length,
                    inner_diameter,
                    outer_diameter,
                    initial_temperature,
                    pressure,
                    material@,
                    user_specified_inner_nodes as nat,
                ) == Ok::<SolidColumnModel, TuasLibError>(array@),
                Err(e) => SolidColumnModel::initial_cylindrical_shell(
                    component_length,
                    inner_diameter,
                    outer_diameter,
                    initial_temperature,
                    pressure,
                    material@,
                    user_specified_inner_nodes as nat,
                ) == Err::<SolidColumnModel, TuasLibError>(e),
            },
            result matches Ok(array) ==> array@.wf() && array@.column.fresh(
                (user_specified_inner_nodes + 2) as nat,
                initial_temperature,
            ),
    {
        assert(0 <= outer_diameter * outer_diameter <= 0x4000_0000_0000_0000_0000_0000_0000_0000)
            by (nonlinear_arith)
            requires
                i64::MIN <= outer_diameter <= i64::MAX,
        ;
        assert(0 <= inner_diameter * inner_diameter <= 0x4000_0000_0000_0000_0000_0000_0000_0000)
            by (nonlinear_arith)
            requires
                i64::MIN <= inner_diameter <= i64::MAX,
        ;
        let difference: i128 = (outer_diameter as i128) * (outer_diameter as i128) - (
        inner_diameter as i128) * (inner_diameter as i128);
        let area: i64 = match scale_wide(difference, PI_BILLIONTHS, 4_000_000_000) {
            Ok(area) => area,
            Err(e) => {
                return Err(e);
            },
        };
        SolidColumn::new_prism(
            component_length,
            area,
            initial_temperature,
            pressure,
            material,
            user_specified_inner_nodes,
        )
    }

    /// The column that fills a block of the given length, thickness and
    /// width. Fails as `new_prism` does, and with a value that is not
    /// representable where the cross section of the block is.
    pub fn new_block(
        component_length: Length,
        thickness: Length,
        width: Length,
        initial_temperature: ThermodynamicTemperature,
        pressure: Pressure,
        material: Material,
        user_specified_inner_nodes: usize,
    ) -> (result: Result<SolidColumn, TuasLibError>)
        ensures
            match result {
                Ok(array) => SolidColumnModel::initial_block(
                    component_length,
                    thickness,
                    width,
                    initial_temperature,
                    pressure,
                    material@,
                    user_specified_inner_nodes as nat,
                ) == Ok::<SolidColumnModel, TuasLibError>(array@),
                Err(e) => SolidColumnModel::initial_block(
                    component_length,
                    thickness,
                    width,
                    initial_temperature,
                    pressure,
                    material@,
                    user_specified_inner_nodes as nat,
                ) == Err::<SolidColumnModel, TuasLibError>(e),
            },
            result matches Ok(array) ==> array@.wf() && array@.column.fresh(
                (user_specified_inner_nodes + 2) as nat,
                initial_temperature,
            ),
    {
        let area: i64 = match thickness.checked_mul(width) {
            Some(area) => area,
            None => {
                return Err(TuasLibError::ValueNotRepresentable);
            },
        };
        SolidColumn::new_prism(
            component_length,
            area,
            initial_temperature,
            pressure,
            material,
            user_specified_inner_nodes,
        )
    }

    pub fn get_component_length(&self) -> (length: Length)
        ensures
            length == self@.component_length,
    {
        self.component_length
    }

    pub fn get_cross_sectional_area(&self) -> (area: Area)
        ensures
            area == self@.cross_sectional_area,
    {
        self.cross_sectional_area
    }

    /// Sets the conductance between the centres of neighbouring nodes, by
    /// which heat is conducted along the column.
    pub fn set_axial_conductance(&mut self, conductance: ThermalConductance)
        ensures
            final(self)@ == old(self)@.with_column(
                ColumnModel { axial_conductance: conductance, ..old(self)@.column },
            ),
    {
        self.column.set_axial_conductance(conductance);
    }

    /// A copy of the column.
    pub fn duplicate(&self) -> (copy: SolidColumn)
        ensures
            copy@ == self@,
    {
        SolidColumn {
            column: self.column.duplicate(),
            component_length: self.component_length,
            cross_sectional_area: self.cross_sectional_area,
        }
    }

    /// The chain of control volumes that holds the state of the nodes.
    pub fn column(&self) -> (column: &ControlVolumeColumn)
        ensures
            column@ == self@.column,
            column@.wf(),
    {
        proof {
            use_type_invariant(&self.column);
        }
        &self.column
    }

    /// The temperatures of the nodes, from the back to the front. Reading
    /// them changes nothing: a second reading returns the same.
    pub fn get_temperature_vector(&mut self) -> (result: Result<
        Vec<ThermodynamicTemperature>,
        TuasLibError,
    >)
        ensures
            final(self)@ == old(self)@,
            result matches Ok(temperatures) && temperatures@ == old(self)@.column.temperature,
    {
        Ok(self.column.temperature_vector())
    }

    /// The mean of the temperatures of the nodes.
    pub fn try_get_bulk_temperature(&self) -> (result: Result<
        ThermodynamicTemperature,
        TuasLibError,
    >)
        ensures
            result matches Ok(temperature) && temperature == self@.column.bulk_temperature(),
    {
        Ok(self.column.bulk_temperature())
    }

    /// The material of the nodes.
    pub fn material_control_volume(&self) -> (material: &Material)
        ensures
            material@ == self@.column.material,
    {
        self.column.material()
    }

    /// The pressure of the nodes.
    pub fn pressure_control_volume(&self) -> (pressure: Pressure)
        ensures
            pressure == self@.column.pressure,
    {
        self.column.pressure()
    }

    /// Registers a lateral link of conductance `conductance` from each node
    /// `i` to the temperature `temperatures[i]`: the node gains the heat rate
    /// `conductance * (temperatures[i] - temperature of node i)`.
    ///
    /// Fails with a dimension mismatch unless there is one temperature for
    /// each node, and with a value that is not representable where the heat
    /// rate registered at a node leaves 128 bits. A failure changes nothing.
    pub fn lateral_link_new_temperature_vector_avg_conductance(
        &mut self,
        conductance: ThermalConductance,
        temperatures: Vec<ThermodynamicTemperature>,
    ) -> (result: Result<(), TuasLibError>)
        ensures
            result == outcome(
                old(self)@.column.with_lateral_temperatures(conductance, temperatures@),
            ),
            final(self)@ == old(self)@.with_column(
                state_after(
                    old(self)@.column.with_lateral_temperatures(conductance, temperatures@),
                    old(self)@.column,
                ),
            ),
            temperatures@.len() != old(self)@.column.len() ==> result == Err::<(), TuasLibError>(
                TuasLibError::DimensionMismatch,
            ),
            result is Err ==> final(self)@ == old(self)@,
    {
        self.column.lateral_link_new_temperature_vector_avg_conductance(conductance, &temperatures)
    }

    /// Registers a lateral link that hands each node `i` the share
    /// `fractions[i]`, in millionths, of the power `total_power`.
    ///
    /// Fails with a dimension mismatch unless there is one share for each
    /// node and the shares sum to one, give or take one millionth per node,
    /// and with a value that is not representable where the heat rate
    /// registered at a node leaves 128 bits. A failure changes nothing.
    pub fn lateral_link_new_power_vector(&mut self, total_power: Power, fractions: PowerFractions) -> (result:
        Result<(), TuasLibError>)
        ensures
            result == outcome(old(self)@.column.with_lateral_power(total_power, fractions@)),
            final(self)@ == old(self)@.with_column(
                state_after(
                    old(self)@.column.with_lateral_power(total_power, fractions@),
                    old(self)@.column,
                ),
            ),
            fractions@.len() != old(self)@.column.len() ==> result == Err::<(), TuasLibError>(
                TuasLibError::DimensionMismatch,
            ),
            result is Err ==> final(self)@ == old(self)@,
    {
        let shares: Vec<i64> = fractions.to_vec();
        self.column.lateral_link_new_power_vector(total_power, &shares)
    }

    /// Sets the heat rate of the axial link at the front; an earlier link at
    /// the front is replaced.
    pub fn link_front_heat_rate(&mut self, heat_rate: HeatRate)
        ensures
            final(self)@ == old(self)@.with_column(
                ColumnModel { front_heat_rate: heat_rate, ..old(self)@.column },
            ),
    {
        self.column.link_front_heat_rate(heat_rate);
    }

    /// Sets the heat rate of the axial link at the back; an earlier link at
    /// the back is replaced.
    pub fn link_back_heat_rate(&mut self, heat_rate: HeatRate)
        ensures
            final(self)@ == old(self)@.with_column(
                ColumnModel { back_heat_rate: heat_rate, ..old(self)@.column },
            ),
    {
        self.column.link_back_heat_rate(heat_rate);
    }

    /// Advances every node by `timestep` and consumes the links.
    ///
    /// Fails with a range error where the material is not defined at the new
    /// specific enthalpy of a node. A failure changes nothing.
    pub fn advance_timestep(&mut self, timestep: Time) -> (result: Result<(), TuasLibError>)
        ensures
            result == outcome(old(self)@.column.advanced(timestep)),
            final(self)@ == old(self)@.with_column(
                state_after(old(self)@.column.advanced(timestep), old(self)@.column),
            ),
    {
        self.column.advance_timestep(timestep)
    }
}

} // verus!
