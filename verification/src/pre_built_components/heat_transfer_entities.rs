use vstd::prelude::*;
use crate::array_control_vol::column::{outcome, state_after, ColumnModel, ControlVolumeColumn};
use crate::array_control_vol::fluid_array::{FluidArray, FluidArrayModel};
use crate::array_control_vol::power_fractions::PowerFractions;
use crate::array_control_vol::solid_column::{SolidColumn, SolidColumnModel};
use crate::boundary_conditions::BCType;
use crate::boussinesq_thermophysical_properties::material::{Material, MaterialModel};
use crate::boussinesq_thermophysical_properties::property_curve::KNOT_LIMIT;
use crate::fixed_point::truncated;
use crate::heat_transfer_correlations::heat_transfer_interactions::{
    try_get_thermal_conductance_based_on_interaction, HeatTransferInteractionType,
};
use crate::single_control_vol::{SingleCVNode, SingleCVNodeModel};
use crate::tuas_lib_error::TuasLibError;
use crate::units::{
    HeatRate, MassRate, Power, Ratio, ThermalConductance, ThermodynamicTemperature, Time,
};

verus! {

/// One of the two ends of an entity along its axis.
#[derive(Clone, Copy, Debug, PartialEq, Eq, Structural)]
pub enum AxialEnd {
    /// The end at which a positive mass flow leaves.
    Front,
    /// The end at which a positive mass flow enters.
    Back,
}

impl AxialEnd {
    /// The end of a neighbour that faces this end.
    pub open spec fn facing(self) -> AxialEnd {
        match self {
            AxialEnd::Front => AxialEnd::Back,
            AxialEnd::Back => AxialEnd::Front,
        }
    }

    /// The end of a neighbour that faces this end.
    pub fn opposite(self) -> (end: AxialEnd)
        ensures
            end == self.facing(),
    {
        match self {
            AxialEnd::Front => AxialEnd::Back,
            AxialEnd::Back => AxialEnd::Front,
        }
    }
}

/// A heat flux density in microwatt per square metre times an area in square
/// micrometre is this many times a power in nanowatt.
pub const HEAT_FLUX_AREA_PER_NANOWATT: i64 = 1_000_000_000;

impl ColumnModel {
    /// The temperature of the node at `end`.
    pub open spec fn end_temperature(self, end: AxialEnd) -> ThermodynamicTemperature {
        match end {
            AxialEnd::Front => self.front_temperature(),
            AxialEnd::Back => self.back_temperature(),
        }
    }

    /// The specific enthalpy of the node at `end`.
    pub open spec fn end_specific_enthalpy(self, end: AxialEnd) -> int {
        match end {
            AxialEnd::Front => self.specific_enthalpy(self.len() - 1),
            AxialEnd::Back => self.specific_enthalpy(0),
        }
    }

    /// The chain with the axial link at `end` set to `heat_rate`, whatever
    /// was linked there before.
    pub open spec fn with_end_heat_rate(self, end: AxialEnd, heat_rate: HeatRate) -> ColumnModel {
        match end {
            AxialEnd::Front => ColumnModel { front_heat_rate: heat_rate, ..self },
            AxialEnd::Back => ColumnModel { back_heat_rate: heat_rate, ..self },
        }
    }
}

/// What a heat transfer entity is to this library.
pub enum EntityModel {
    SingleCV(SingleCVNodeModel),
    FluidArray(FluidArrayModel),
    SolidArray(SolidColumnModel),
    Boundary(BCType),
}

impl EntityModel {
    /// The chain of control volumes of the entity; a boundary condition has none.
    pub open spec fn column(self) -> Option<ColumnModel> {
        match self {
            EntityModel::SingleCV(node) => Some(node.column),
            EntityModel::FluidArray(array) => Some(array.column),
            EntityModel::SolidArray(array) => Some(array.column),
            EntityModel::Boundary(_) => None,
        }
    }

    /// The entity with its chain of control volumes replaced; a boundary
    /// condition stays as it is.
    pub open spec fn with_column(self, column: ColumnModel) -> EntityModel {
        match self {
            EntityModel::SingleCV(node) => EntityModel::SingleCV(node.with_column(column)),
            EntityModel::FluidArray(array) => EntityModel::FluidArray(array.with_column(column)),
            EntityModel::SolidArray(array) => EntityModel::SolidArray(array.with_column(column)),
            EntityModel::Boundary(bc) => EntityModel::Boundary(bc),
        }
    }

    /// Whether both entities are of the same kind and, where they have
    /// nodes, have as many.
    pub open spec fn same_shape(self, other: EntityModel) -> bool {
        match (self, other) {
            (EntityModel::SingleCV(a), EntityModel::SingleCV(b)) => a.column.len()
                == b.column.len(),
            (EntityModel::FluidArray(a), EntityModel::FluidArray(b)) => a.column.len()
                == b.column.len(),
            (EntityModel::SolidArray(a), EntityModel::SolidArray(b)) => a.column.len()
                == b.column.len(),
            (EntityModel::Boundary(_), EntityModel::Boundary(_)) => true,
            _ => false,
        }
    }

    /// The entity after a step of `timestep`: its control volumes advanced;
    /// a boundary condition is never advanced.
    pub open spec fn advanced(self, timestep: Time) -> Result<EntityModel, TuasLibError> {
        match self.column() {
            Some(column) => match column.advanced(timestep) {
                Ok(after) => Ok(self.with_column(after)),
                Err(e) => Err(e),
            },
            None => Ok(self),
        }
    }

    /// The entity after a lateral link of its nodes to the given
    /// temperatures; a boundary condition has no nodes to link.
    pub open spec fn with_lateral_temperatures(
        self,
        conductance: ThermalConductance,
        temperatures: Seq<ThermodynamicTemperature>,
    ) -> Result<EntityModel, TuasLibError> {
        match self.column() {
            Some(column) => match column.with_lateral_temperatures(conductance, temperatures) {
                Ok(after) => Ok(self.with_column(after)),
                Err(e) => Err(e),
            },
            None => Err(TuasLibError::TypeConversionError),
        }
    }

    /// The entity after a lateral link that hands its nodes their shares of
    /// a power; a boundary condition has no nodes to link.
    pub open spec fn with_lateral_power(self, total_power: Power, fractions: Seq<Ratio>) -> Result<
        EntityModel,
        TuasLibError,
    > {
        match self.column() {
            Some(column) => match column.with_lateral_power(total_power, fractions) {
                Ok(after) => Ok(self.with_column(after)),
                Err(e) => Err(e),
            },
            None => Err(TuasLibError::TypeConversionError),
        }
    }

    /// The temperatures that the entity shows: those of its nodes from the
    /// back to the front, or the one of a temperature boundary condition.
    /// Other boundary conditions have none.
    pub open spec fn temperature_vector(self) -> Result<
        Seq<ThermodynamicTemperature>,
        TuasLibError,
    > {
        match self {
            EntityModel::Boundary(BCType::UserSpecifiedTemperature(temperature)) => Ok(
                seq![temperature],
            ),
            EntityModel::Boundary(_) => Err(TuasLibError::TypeConversionError),
            _ => Ok(self.column()->Some_0.temperature),
        }
    }

    /// The one temperature that stands for the entity: the mean of its
    /// nodes, or the one of a temperature boundary condition.
    pub open spec fn bulk_temperature(self) -> Result<ThermodynamicTemperature, TuasLibError> {
        match self {
            EntityModel::Boundary(BCType::UserSpecifiedTemperature(temperature)) => Ok(
                temperature,
            ),
            EntityModel::Boundary(_) => Err(TuasLibError::TypeConversionError),
            _ => Ok(self.column()->Some_0.bulk_temperature() as i64),
        }
    }

    /// The entity after `new_state` has been written over it: the new state,
    /// if it is of the same kind and has as many nodes. Else a conversion
    /// error where the kinds differ and a dimension mismatch where the
    /// numbers of nodes do.
    pub open spec fn replaced_by(self, new_state: EntityModel) -> Result<EntityModel, TuasLibError> {
        if !self.same_kind(new_state) {
            Err(TuasLibError::TypeConversionError)
        } else if !self.same_shape(new_state) {
            Err(TuasLibError::DimensionMismatch)
        } else {
            Ok(new_state)
        }
    }

    /// Whether both entities are of the same kind.
    pub open spec fn same_kind(self, other: EntityModel) -> bool {
        match (self, other) {
            (EntityModel::SingleCV(_), EntityModel::SingleCV(_)) => true,
            (EntityModel::FluidArray(_), EntityModel::FluidArray(_)) => true,
            (EntityModel::SolidArray(_), EntityModel::SolidArray(_)) => true,
            (EntityModel::Boundary(_), EntityModel::Boundary(_)) => true,
            _ => false,
        }
    }

    /// The entity with the mass flow through it set; only a fluid array has
    /// a flow to set.
    pub open spec fn with_mass_flowrate(self, mass_flowrate: MassRate) -> Result<
        EntityModel,
        TuasLibError,
    > {
        match self {
            EntityModel::FluidArray(array) => Ok(
                EntityModel::FluidArray(
                    array.with_column(ColumnModel { mass_flowrate, ..array.column }),
                ),
            ),
            _ => Err(TuasLibError::TypeConversionError),
        }
    }

    /// The fluid array that the entity is; a conversion error if it is none.
    pub open spec fn fluid_array(self) -> Result<FluidArrayModel, TuasLibError> {
        match self {
            EntityModel::FluidArray(array) => Ok(array),
            _ => Err(TuasLibError::TypeConversionError),
        }
    }

    /// The solid column that the entity is; a conversion error if it is none.
    pub open spec fn solid_column(self) -> Result<SolidColumnModel, TuasLibError> {
        match self {
            EntityModel::SolidArray(array) => Ok(array),
            _ => Err(TuasLibError::TypeConversionError),
        }
    }

    /// The temperature that the entity shows at `end` to a neighbour: that
    /// of its end node, or that of a temperature boundary condition. Other
    /// boundary conditions show none.
    pub open spec fn temperature_at_end(self, end: AxialEnd) -> Result<
        ThermodynamicTemperature,
        TuasLibError,
    > {
        match self {
            EntityModel::Boundary(BCType::UserSpecifiedTemperature(temperature)) => Ok(
                temperature,
            ),
            EntityModel::Boundary(_) => Err(TuasLibError::TypeConversionError),
            _ => Ok(self.column()->Some_0.end_temperature(end)),
        }
    }

    /// The specific enthalpy with which a flow leaves the entity at `end`
    /// into a neighbour of the material `neighbour`: that of its end node,
    /// or the one that the neighbour's material has at the temperature of a
    /// temperature boundary condition. Other boundary conditions are no
    /// source of a flow.
    pub open spec fn specific_enthalpy_at_end(self, end: AxialEnd, neighbour: MaterialModel) -> Result<
        i64,
        TuasLibError,
    > {
        match self {
            EntityModel::Boundary(BCType::UserSpecifiedTemperature(temperature)) => {
                neighbour.specific_enthalpy_at(temperature as int)
            },
            EntityModel::Boundary(_) => Err(TuasLibError::TypeConversionError),
            _ => Ok(self.column()->Some_0.end_specific_enthalpy(end) as i64),
        }
    }
}

/// The heat rate that enters the chain `own` through its end `end` from a
/// flow of `outward` that leaves the chain there (or, where `outward` is
/// negative, enters it). The flow carries the specific enthalpy of the side
/// that it comes from.
pub open spec fn advected_heat_rate(
    own: ColumnModel,
    end: AxialEnd,
    other: EntityModel,
    outward: int,
) -> Result<HeatRate, TuasLibError> {
    if outward >= 0 {
        Ok((-(outward * own.end_specific_enthalpy(end))) as i128)
    } else {
        match other.specific_enthalpy_at_end(end.facing(), own.material) {
            Ok(upstream) => Ok((-(outward * upstream)) as i128),
            Err(e) => Err(e),
        }
    }
}

/// The heat rate that enters the chain `own` through its end `end` from the
/// entity `other` linked there by `interaction`.
///
/// Advection counts its mass flow from the first entity of the link to the
/// second: at the front the chain is the first, at the back the second.
/// A stated power or heat flux is read from the boundary condition that
/// states it; the heat flux over its area is rounded towards zero, so that
/// a heat flux reversed is a heat rate reversed. Every other interaction is
/// a conductance between the temperatures of the two facing ends.
pub open spec fn axial_heat_rate(
    own: ColumnModel,
    end: AxialEnd,
    other: EntityModel,
    interaction: HeatTransferInteractionType,
) -> Result<HeatRate, TuasLibError> {
    match interaction {
        HeatTransferInteractionType::Advection(data) => advected_heat_rate(
            own,
            end,
            other,
            match end {
                AxialEnd::Front => data.mass_flowrate as int,
                AxialEnd::Back => -data.mass_flowrate,
            },
        ),
        HeatTransferInteractionType::UserSpecifiedHeatAddition => match other {
            EntityModel::Boundary(BCType::UserSpecifiedHeatAddition(power)) => Ok(power as i128),
            _ => Err(TuasLibError::TypeConversionError),
        },
        HeatTransferInteractionType::UserSpecifiedHeatFluxCustomArea(area) => match other {
            EntityModel::Boundary(BCType::UserSpecifiedHeatFlux(heat_flux)) => Ok(
                truncated(heat_flux * area, HEAT_FLUX_AREA_PER_NANOWATT as int) as i128,
            ),
            _ => Err(TuasLibError::TypeConversionError),
        },
        _ => match interaction.conductance() {
            Ok(conductance) => match other.temperature_at_end(end.facing()) {
                Ok(temperature) => Ok(
                    (conductance * (temperature - own.end_temperature(end))) as i128,
                ),
                Err(e) => Err(e),
            },
            Err(e) => Err(e),
        },
    }
}

/// The two entities after `own` has linked its end `end` to `other`: the
/// end of `own` holds the heat rate that enters it, the facing end of `other`
/// the same heat rate leaving, so that what one gains the other loses. A
/// boundary condition as `own` has no end to link.
pub open spec fn linked(
    own: EntityModel,
    end: AxialEnd,
    other: EntityModel,
    interaction: HeatTransferInteractionType,
) -> Result<(EntityModel, EntityModel), TuasLibError> {
    match own.column() {
        Some(column) => match axial_heat_rate(column, end, other, interaction) {
            Ok(heat_rate) => Ok(
                (
                    own.with_column(column.with_end_heat_rate(end, heat_rate)),
                    match other.column() {
                        Some(neighbour) => other.with_column(
                            neighbour.with_end_heat_rate(end.facing(), (-heat_rate) as i128),
                        ),
                        None => other,
                    },
                ),
            ),
            Err(e) => Err(e),
        },
        None => Err(TuasLibError::TypeConversionError),
    }
}

/// A control volume of one of the three kinds.
#[derive(Clone, Debug, PartialEq)]
pub enum CVType {
    SingleCV(SingleCVNode),
    FluidArrayCV(FluidArray),
    SolidArrayCV(SolidColumn),
}

/// Anything that takes part in the network: a control volume or a boundary
/// condition.
#[derive(Clone, Debug, PartialEq)]
pub enum HeatTransferEntity {
    ControlVolume(CVType),
    BoundaryConditions(BCType),
}

impl View for CVType {
    type V = EntityModel;

    open spec fn view(&self) -> EntityModel {
        match self {
            CVType::SingleCV(node) => EntityModel::SingleCV(node@),
            CVType::FluidArrayCV(array) => EntityModel::FluidArray(array@),
            CVType::SolidArrayCV(array) => EntityModel::SolidArray(array@),
        }
    }
}

impl View for HeatTransferEntity {
    type V = EntityModel;

    open spec fn view(&self) -> EntityModel {
        match self {
            HeatTransferEntity::ControlVolume(cv) => cv@,
            HeatTransferEntity::BoundaryConditions(bc) => EntityModel::Boundary(*bc),
        }
    }
}

impl From<CVType> for HeatTransferEntity {
    fn from(cv: CVType) -> (entity: HeatTransferEntity) {
        HeatTransferEntity::ControlVolume(cv)
    }
}

impl vstd::std_specs::convert::FromSpecImpl<CVType> for HeatTransferEntity {
    open spec fn obeys_from_spec() -> bool {
        true
    }

    open spec fn from_spec(cv: CVType) -> HeatTransferEntity {
        HeatTransferEntity::ControlVolume(cv)
    }
}

impl From<BCType> for HeatTransferEntity {
    fn from(bc: BCType) -> (entity: HeatTransferEntity) {
        HeatTransferEntity::BoundaryConditions(bc)
    }
}

impl vstd::std_specs::convert::FromSpecImpl<BCType> for HeatTransferEntity {
    open spec fn obeys_from_spec() -> bool {
        true
    }

    open spec fn from_spec(bc: BCType) -> HeatTransferEntity {
        HeatTransferEntity::BoundaryConditions(bc)
    }
}

impl HeatTransferEntity {
    /// The chain of control volumes of the entity, if it has one.
    pub fn column(&self) -> (column: Option<&ControlVolumeColumn>)
        ensures
            match column {
                Some(c) => self@.column() == Some(c@) && c@.wf(),
                None => self@.column() is None,
            },
    {
        match self {
            HeatTransferEntity::ControlVolume(CVType::SingleCV(node)) => Some(node.column()),
            HeatTransferEntity::ControlVolume(CVType::FluidArrayCV(array)) => Some(array.column()),
            HeatTransferEntity::ControlVolume(CVType::SolidArrayCV(array)) => Some(array.column()),
            HeatTransferEntity::BoundaryConditions(_) => None,
        }
    }

    /// The kind of the entity as a number, for comparing kinds.
    fn kind(&self) -> (kind: u8)
        ensures
            kind == match self@ {
                EntityModel::SingleCV(_) => 0u8,
                EntityModel::FluidArray(_) => 1u8,
                EntityModel::SolidArray(_) => 2u8,
                EntityModel::Boundary(_) => 3u8,
            },
    {
        match self {
            HeatTransferEntity::ControlVolume(CVType::SingleCV(_)) => 0,
            HeatTransferEntity::ControlVolume(CVType::FluidArrayCV(_)) => 1,
            HeatTransferEntity::ControlVolume(CVType::SolidArrayCV(_)) => 2,
            HeatTransferEntity::BoundaryConditions(_) => 3,
        }
    }

    /// Writes `new_state` over the entity as a whole. The kind of an entity
    /// and its number of nodes never change: a state of another kind is a
    /// conversion error, one with another number of nodes a dimension
    /// mismatch, and neither changes the entity.
    pub fn set(&mut self, new_state: HeatTransferEntity) -> (result: Result<(), TuasLibError>)
        ensures
            result == outcome(old(self)@.replaced_by(new_state@)),
            final(self)@ == state_after(old(self)@.replaced_by(new_state@), old(self)@),
    {
        if self.kind() != new_state.kind() {
            return Err(TuasLibError::TypeConversionError);
        }
        let same_length: bool = match (self.column(), new_state.column()) {
            (Some(own), Some(new)) => own.number_of_nodes() == new.number_of_nodes(),
            _ => true,
        };
        if !same_length {
            return Err(TuasLibError::DimensionMismatch);
        }
        *self = new_state;
        Ok(())
    }

    /// The temperatures that the entity shows. Reading them changes nothing:
    /// a second reading returns the same.
    pub fn get_temperature_vector(&mut self) -> (result: Result<
        Vec<ThermodynamicTemperature>,
        TuasLibError,
    >)
        ensures
            final(self)@ == old(self)@,
            match result {
                Ok(temperatures) => old(self)@.temperature_vector() == Ok::<
                    Seq<i64>,
                    TuasLibError,
                >(temperatures@),
                Err(e) => old(self)@.temperature_vector() == Err::<Seq<i64>, TuasLibError>(e),
            },
    {
        match self {
            HeatTransferEntity::BoundaryConditions(BCType::UserSpecifiedTemperature(temperature)) => {
                let mut temperatures: Vec<i64> = Vec::new();
                temperatures.push(*temperature);
                assert(temperatures@ == seq![*temperature]);
                Ok(temperatures)
            },
            HeatTransferEntity::BoundaryConditions(_) => Err(TuasLibError::TypeConversionError),
            _ => match self.column() {
                Some(column) => Ok(column.temperature_vector()),
                None => Err(TuasLibError::TypeConversionError),
            },
        }
    }

    /// The one temperature that stands for the entity.
    pub fn try_get_bulk_temperature(&self) -> (result: Result<
        ThermodynamicTemperature,
        TuasLibError,
    >)
        ensures
            result == self@.bulk_temperature(),
    {
        match self {
            HeatTransferEntity::BoundaryConditions(BCType::UserSpecifiedTemperature(temperature)) => {
                Ok(*temperature)
            },
            HeatTransferEntity::BoundaryConditions(_) => Err(TuasLibError::TypeConversionError),
            _ => match self.column() {
                Some(column) => Ok(column.bulk_temperature()),
                None => Err(TuasLibError::TypeConversionError),
            },
        }
    }

    /// Registers a lateral link of conductance `conductance` from each node
    /// `i` to the temperature `temperatures[i]`.
    ///
    /// Fails with a conversion error for a boundary condition, and as the
    /// link of a chain of control volumes does. A failure changes nothing.
    pub fn lateral_link_new_temperature_vector_avg_conductance(
        &mut self,
        conductance: ThermalConductance,
        temperatures: Vec<ThermodynamicTemperature>,
    ) -> (result: Result<(), TuasLibError>)
        ensures
            result == outcome(old(self)@.with_lateral_temperatures(conductance, temperatures@)),
            final(self)@ == state_after(
                old(self)@.with_lateral_temperatures(conductance, temperatures@),
                old(self)@,
            ),
            old(self)@.column() matches Some(column) && temperatures@.len() != column.len()
                ==> result == Err::<(), TuasLibError>(TuasLibError::DimensionMismatch),
            result is Err ==> final(self)@ == old(self)@,
    {
        match self {
            HeatTransferEntity::ControlVolume(CVType::SingleCV(node)) => {
                node.lateral_link_new_temperature_vector_avg_conductance(conductance, temperatures)
            },
            HeatTransferEntity::ControlVolume(CVType::FluidArrayCV(array)) => {
                array.lateral_link_new_temperature_vector_avg_conductance(conductance, temperatures)
            },
            HeatTransferEntity::ControlVolume(CVType::SolidArrayCV(array)) => {
                array.lateral_link_new_temperature_vector_avg_conductance(conductance, temperatures)
            },
            HeatTransferEntity::BoundaryConditions(_) => Err(TuasLibError::TypeConversionError),
        }
    }

    /// Registers a lateral link that hands each node `i` the share
    /// `fractions[i]`, in millionths, of the power `total_power`.
    ///
    /// Fails with a conversion error for a boundary condition, and as the
    /// link of a chain of control volumes does. A failure changes nothing.
    pub fn lateral_link_new_power_vector(&mut self, total_power: Power, fractions: PowerFractions) -> (result:
        Result<(), TuasLibError>)
        ensures
            result == outcome(old(self)@.with_lateral_power(total_power, fractions@)),
            final(self)@ == state_after(
                old(self)@.with_lateral_power(total_power, fractions@),
                old(self)@,
            ),
            old(self)@.column() matches Some(column) && fractions@.len() != column.len()
                ==> result == Err::<(), TuasLibError>(TuasLibError::DimensionMismatch),
            result is Err ==> final(self)@ == old(self)@,
    {
        match self {
            HeatTransferEntity::ControlVolume(CVType::SingleCV(node)) => {
                node.lateral_link_new_power_vector(total_power, fractions)
            },
            HeatTransferEntity::ControlVolume(CVType::FluidArrayCV(array)) => {
                array.lateral_link_new_power_vector(total_power, fractions)
            },
            HeatTransferEntity::ControlVolume(CVType::SolidArrayCV(array)) => {
                array.lateral_link_new_power_vector(total_power, fractions)
            },
            HeatTransferEntity::BoundaryConditions(_) => Err(TuasLibError::TypeConversionError),
        }
    }

    /// Advances the control volumes of the entity by `timestep` and consumes
    /// their links. A boundary condition is never advanced.
    ///
    /// Fails with a range error where the material is not defined at the new
    /// specific enthalpy of a node. A failure changes nothing.
    pub fn advance_timestep(&mut self, timestep: Time) -> (result: Result<(), TuasLibError>)
        ensures
            result == outcome(old(self)@.advanced(timestep)),
            final(self)@ == state_after(old(self)@.advanced(timestep), old(self)@),
    {
        match self {
            HeatTransferEntity::ControlVolume(CVType::SingleCV(node)) => node.advance_timestep(
                timestep,
            ),
            HeatTransferEntity::ControlVolume(CVType::FluidArrayCV(array)) => {
                array.advance_timestep(timestep)
            },
            HeatTransferEntity::ControlVolume(CVType::SolidArrayCV(array)) => {
                array.advance_timestep(timestep)
            },
            HeatTransferEntity::BoundaryConditions(_) => Ok(()),
        }
    }

    /// A copy of the entity.
    pub fn duplicate(&self) -> (copy: HeatTransferEntity)
        ensures
            copy@ == self@,
    {
        match self {
            HeatTransferEntity::ControlVolume(CVType::SingleCV(node)) => {
                HeatTransferEntity::ControlVolume(CVType::SingleCV(node.duplicate()))
            },
            HeatTransferEntity::ControlVolume(CVType::FluidArrayCV(array)) => {
                HeatTransferEntity::ControlVolume(CVType::FluidArrayCV(array.duplicate()))
            },
            HeatTransferEntity::ControlVolume(CVType::SolidArrayCV(array)) => {
                HeatTransferEntity::ControlVolume(CVType::SolidArrayCV(array.duplicate()))
            },
            HeatTransferEntity::BoundaryConditions(bc) => HeatTransferEntity::BoundaryConditions(
                *bc,
            ),
        }
    }

    /// Sets the mass flow through a fluid array; a conversion error for any
    /// other entity, which it leaves as it is.
    pub fn set_mass_flowrate(&mut self, mass_flowrate: MassRate) -> (result: Result<
        (),
        TuasLibError,
    >)
        ensures
            result == outcome(old(self)@.with_mass_flowrate(mass_flowrate)),
            final(self)@ == state_after(old(self)@.with_mass_flowrate(mass_flowrate), old(self)@),
    {
        match self {
            HeatTransferEntity::ControlVolume(CVType::FluidArrayCV(array)) => {
                array.set_mass_flowrate(mass_flowrate);
                Ok(())
            },
            _ => Err(TuasLibError::TypeConversionError),
        }
    }

    /// The fluid array that the entity is; a conversion error if it is none.
    pub fn as_fluid_array(&self) -> (result: Result<&FluidArray, TuasLibError>)
        ensures
            match result {
                Ok(array) => self@.fluid_array() == Ok::<FluidArrayModel, TuasLibError>(array@),
                Err(e) => self@.fluid_array() == Err::<FluidArrayModel, TuasLibError>(e),
            },
    {
        match self {
            HeatTransferEntity::ControlVolume(CVType::FluidArrayCV(array)) => Ok(array),
            _ => Err(TuasLibError::TypeConversionError),
        }
    }

    /// The solid column that the entity is; a conversion error if it is none.
    pub fn as_solid_column(&self) -> (result: Result<&SolidColumn, TuasLibError>)
        ensures
            match result {
                Ok(array) => self@.solid_column() == Ok::<SolidColumnModel, TuasLibError>(array@),
                Err(e) => self@.solid_column() == Err::<SolidColumnModel, TuasLibError>(e),
            },
    {
        match self {
            HeatTransferEntity::ControlVolume(CVType::SolidArrayCV(array)) => Ok(array),
            _ => Err(TuasLibError::TypeConversionError),
        }
    }

    /// The fluid array that the entity is; a conversion error if it is none.
    pub fn try_into_fluid_array(self) -> (result: Result<FluidArray, TuasLibError>)
        ensures
            match result {
                Ok(array) => self@ == EntityModel::FluidArray(array@),
                Err(e) => e == TuasLibError::TypeConversionError && !(self@ is FluidArray),
            },
    {
        match self {
            HeatTransferEntity::ControlVolume(CVType::FluidArrayCV(array)) => Ok(array),
            _ => Err(TuasLibError::TypeConversionError),
        }
    }

    /// The solid column that the entity is; a conversion error if it is none.
    pub fn try_into_solid_column(self) -> (result: Result<SolidColumn, TuasLibError>)
        ensures
            match result {
                Ok(array) => self@ == EntityModel::SolidArray(array@),
                Err(e) => e == TuasLibError::TypeConversionError && !(self@ is SolidArray),
            },
    {
        match self {
            HeatTransferEntity::ControlVolume(CVType::SolidArrayCV(array)) => Ok(array),
            _ => Err(TuasLibError::TypeConversionError),
        }
    }

    /// The single control volume that the entity is; a conversion error if
    /// it is none.
    pub fn try_into_single_cv(self) -> (result: Result<SingleCVNode, TuasLibError>)
        ensures
            match result {
                Ok(node) => self@ == EntityModel::SingleCV(node@),
                Err(e) => e == TuasLibError::TypeConversionError && !(self@ is SingleCV),
            },
    {
        match self {
            HeatTransferEntity::ControlVolume(CVType::SingleCV(node)) => Ok(node),
            _ => Err(TuasLibError::TypeConversionError),
        }
    }

    /// The boundary condition that the entity is; a conversion error if it
    /// is none.
    pub fn try_into_boundary_condition(self) -> (result: Result<BCType, TuasLibError>)
        ensures
            match result {
                Ok(bc) => self@ == EntityModel::Boundary(bc),
                Err(e) => e == TuasLibError::TypeConversionError && !(self@ is Boundary),
            },
    {
        match self {
            HeatTransferEntity::BoundaryConditions(bc) => Ok(bc),
            _ => Err(TuasLibError::TypeConversionError),
        }
    }

    /// The temperature that the entity shows at `end` to a neighbour.
    pub fn temperature_at_end(&self, end: AxialEnd) -> (result: Result<
        ThermodynamicTemperature,
        TuasLibError,
    >)
        ensures
            result == self@.temperature_at_end(end),
    {
        match self {
            HeatTransferEntity::BoundaryConditions(BCType::UserSpecifiedTemperature(temperature)) => {
                Ok(*temperature)
            },
            HeatTransferEntity::BoundaryConditions(_) => Err(TuasLibError::TypeConversionError),
            _ => match self.column() {
                Some(column) => Ok(column_end_temperature(column, end)),
                None => Err(TuasLibError::TypeConversionError),
            },
        }
    }

    /// The specific enthalpy with which a flow leaves the entity at `end`
    /// into a neighbour of the material `neighbour`.
    pub fn specific_enthalpy_at_end(&self, end: AxialEnd, neighbour: &Material) -> (result: Result<
        i64,
        TuasLibError,
    >)
        ensures
            result == self@.specific_enthalpy_at_end(end, neighbour@),
            result matches Ok(h) ==> -KNOT_LIMIT <= h <= KNOT_LIMIT,
    {
        match self {
            HeatTransferEntity::BoundaryConditions(BCType::UserSpecifiedTemperature(temperature)) => {
                proof {
                    use_type_invariant(neighbour);
                    if neighbour@.specific_enthalpy.in_domain(*temperature as int) {
                        neighbour@.specific_enthalpy.lemma_value_within_limit(*temperature as int);
                    }
                }
                neighbour.try_get_h(*temperature)
            },
            HeatTransferEntity::BoundaryConditions(_) => Err(TuasLibError::TypeConversionError),
            _ => match self.column() {
                Some(column) => Ok(column_end_specific_enthalpy(column, end)),
                None => Err(TuasLibError::TypeConversionError),
            },
        }
    }

    /// Sets the axial link at `end` to `heat_rate`; a boundary condition has
    /// no link to set.
    fn set_end_heat_rate(&mut self, end: AxialEnd, heat_rate: HeatRate)
        ensures
            final(self)@ == match old(self)@.column() {
                Some(column) => old(self)@.with_column(column.with_end_heat_rate(end, heat_rate)),
                None => old(self)@,
            },
    {
        match self {
            HeatTransferEntity::ControlVolume(CVType::SingleCV(node)) => match end {
                AxialEnd::Front => node.link_front_heat_rate(heat_rate),
                AxialEnd::Back => node.link_back_heat_rate(heat_rate),
            },
            HeatTransferEntity::ControlVolume(CVType::FluidArrayCV(array)) => match end {
                AxialEnd::Front => array.link_front_heat_rate(heat_rate),
                AxialEnd::Back => array.link_back_heat_rate(heat_rate),
            },
            HeatTransferEntity::ControlVolume(CVType::SolidArrayCV(array)) => match end {
                AxialEnd::Front => array.link_front_heat_rate(heat_rate),
                AxialEnd::Back => array.link_back_heat_rate(heat_rate),
            },
            HeatTransferEntity::BoundaryConditions(_) => {},
        }
    }

    /// Links the end `end` of this entity to the facing end of `other`.
    ///
    /// The link holds for the step in which it is made: the step consumes
    /// it, and an end that is not linked anew before the next step is
    /// adiabatic in that step. It replaces what was linked to either of the
    /// two ends before: of two links to one end, the later one counts, and
    /// nothing tells of the earlier one. So every end is linked once in
    /// every step, after the defaults that a component sets.
    ///
    /// Fails with a conversion error where this entity is a boundary
    /// condition, or where `other` cannot take part in the interaction, and
    /// with the error of the conductance or of the enthalpy that the
    /// interaction needs. A failure changes neither entity.
    pub fn link(
        &mut self,
        end: AxialEnd,
        other: &mut HeatTransferEntity,
        interaction: HeatTransferInteractionType,
    ) -> (result: Result<(), TuasLibError>)
        ensures
            result == outcome(linked(old(self)@, end, old(other)@, interaction)),
            (final(self)@, final(other)@) == state_after(
                linked(old(self)@, end, old(other)@, interaction),
                (old(self)@, old(other)@),
            ),
    {
        let heat_rate: i128 = match self.column() {
            Some(column) => match try_get_axial_heat_rate(column, end, &*other, interaction) {
                Ok(heat_rate) => heat_rate,
                Err(e) => {
                    return Err(e);
                },
            },
            None => {
                return Err(TuasLibError::TypeConversionError);
            },
        };
        self.set_end_heat_rate(end, heat_rate);
        other.set_end_heat_rate(end.opposite(), -heat_rate);
        Ok(())
    }

    /// Links the front of this entity to the back of `other`. See `link`.
    pub fn link_to_front(
        &mut self,
        other: &mut HeatTransferEntity,
        interaction: HeatTransferInteractionType,
    ) -> (result: Result<(), TuasLibError>)
        ensures
            result == outcome(linked(old(self)@, AxialEnd::Front, old(other)@, interaction)),
            (final(self)@, final(other)@) == state_after(
                linked(old(self)@, AxialEnd::Front, old(other)@, interaction),
                (old(self)@, old(other)@),
            ),
    {
        self.link(AxialEnd::Front, other, interaction)
    }

    /// Links the back of this entity to the front of `other`. See `link`.
    pub fn link_to_back(
        &mut self,
        other: &mut HeatTransferEntity,
        interaction: HeatTransferInteractionType,
    ) -> (result: Result<(), TuasLibError>)
        ensures
            result == outcome(linked(old(self)@, AxialEnd::Back, old(other)@, interaction)),
            (final(self)@, final(other)@) == state_after(
                linked(old(self)@, AxialEnd::Back, old(other)@, interaction),
                (old(self)@, old(other)@),
            ),
    {
        self.link(AxialEnd::Back, other, interaction)
    }
}

/// The temperature of the node at `end` of `column`.
pub fn column_end_temperature(column: &ControlVolumeColumn, end: AxialEnd) -> (temperature:
    ThermodynamicTemperature)
    ensures
        temperature == column@.end_temperature(end),
        -KNOT_LIMIT <= temperature <= KNOT_LIMIT,
{
    match end {
        AxialEnd::Front => column.front_temperature(),
        AxialEnd::Back => column.back_temperature(),
    }
}

/// The specific enthalpy of the node at `end` of `column`.
pub fn column_end_specific_enthalpy(column: &ControlVolumeColumn, end: AxialEnd) -> (specific_enthalpy:
    i64)
    ensures
        specific_enthalpy == column@.end_specific_enthalpy(end),
        -KNOT_LIMIT <= specific_enthalpy <= KNOT_LIMIT,
{
    let n: usize = column.number_of_nodes();
    match end {
        AxialEnd::Front => column.specific_enthalpy(n - 1),
        AxialEnd::Back => column.specific_enthalpy(0),
    }
}

/// The heat rate that enters `own` through its end `end` from the entity
/// `other` linked there by `interaction`.
pub fn try_get_axial_heat_rate(
    own: &ControlVolumeColumn,
    end: AxialEnd,
    other: &HeatTransferEntity,
    interaction: HeatTransferInteractionType,
) -> (result: Result<HeatRate, TuasLibError>)
    ensures
        result == axial_heat_rate(own@, end, other@, interaction),
        result matches Ok(heat_rate) ==> heat_rate > i128::MIN,
{
    match interaction {
        HeatTransferInteractionType::Advection(data) => {
            let outward: i128 = match end {
                AxialEnd::Front => data.mass_flowrate as i128,
                AxialEnd::Back => -(data.mass_flowrate as i128),
            };
            let upstream: i64 = if outward >= 0 {
                column_end_specific_enthalpy(own, end)
            } else {
                match other.specific_enthalpy_at_end(end.opposite(), own.material()) {
                    Ok(h) => h,
                    Err(e) => {
                        return Err(e);
                    },
                }
            };
            assert(-0x2000_0000_0000_0000_0000_0000_0000_0000 <= outward * upstream
                <= 0x2000_0000_0000_0000_0000_0000_0000_0000) by (nonlinear_arith)
                requires
                    -0x8000_0000_0000_0000 <= outward <= 0x8000_0000_0000_0000,
                    -KNOT_LIMIT <= upstream <= KNOT_LIMIT,
            ;
            Ok(-(outward * (upstream as i128)))
        },
        HeatTransferInteractionType::UserSpecifiedHeatAddition => match other {
            HeatTransferEntity::BoundaryConditions(BCType::UserSpecifiedHeatAddition(power)) => Ok(
                *power as i128,
            ),
            _ => Err(TuasLibError::TypeConversionError),
        },
        HeatTransferInteractionType::UserSpecifiedHeatFluxCustomArea(area) => match other {
            HeatTransferEntity::BoundaryConditions(BCType::UserSpecifiedHeatFlux(heat_flux)) => {
                assert(-0x4000_0000_0000_0000_0000_0000_0000_0000 <= *heat_flux * area
                    <= 0x4000_0000_0000_0000_0000_0000_0000_0000) by (nonlinear_arith)
                    requires
                        i64::MIN <= *heat_flux <= i64::MAX,
                        i64::MIN <= area <= i64::MAX,
                ;
                let product: i128 = (*heat_flux as i128) * (area as i128);
                proof {
                    crate::fixed_point::lemma_quotient_bounds(
                        product as int,
                        HEAT_FLUX_AREA_PER_NANOWATT as int,
                    );
                    crate::fixed_point::lemma_quotient_bounds(
                        -product,
                        HEAT_FLUX_AREA_PER_NANOWATT as int,
                    );
                }
                match product.checked_div(HEAT_FLUX_AREA_PER_NANOWATT as i128) {
                    Some(q) => Ok(q),
                    None => Err(TuasLibError::ValueNotRepresentable),
                }
            },
            _ => Err(TuasLibError::TypeConversionError),
        },
        _ => {
            let conductance: i64 = match try_get_thermal_conductance_based_on_interaction(
                interaction,
            ) {
                Ok(g) => g,
                Err(e) => {
                    return Err(e);
                },
            };
            let temperature: i64 = match other.temperature_at_end(end.opposite()) {
                Ok(t) => t,
                Err(e) => {
                    return Err(e);
                },
            };
            let own_temperature: i64 = column_end_temperature(own, end);
            let difference: i128 = temperature as i128 - own_temperature as i128;
            assert(-0x7000_0000_0000_0000_0000_0000_0000_0000 <= conductance * difference
                <= 0x7000_0000_0000_0000_0000_0000_0000_0000) by (nonlinear_arith)
                requires
                    i64::MIN <= conductance <= i64::MAX,
                    -0xc000_0000_0000_0000 <= difference <= 0xc000_0000_0000_0000,
            ;
            Ok((conductance as i128) * difference)
        },
    }
}

} // verus!
