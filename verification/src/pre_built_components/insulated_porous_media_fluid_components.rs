use vstd::prelude::*;
use crate::array_control_vol::column::{outcome, power_share, state_after, sum_of};
use crate::heat_transfer_correlations::nusselt_number_correlations::GnielinskiData;
use crate::heat_transfer_correlations::thermal_resistance::{
    convective_conductance, cylinder_lateral_area, heat_transfer_coefficient, layer_conductance,
    ratio_of, reynolds_number, scaled_by, series_conductance, try_get_convective_conductance,
    try_get_cylinder_lateral_area, try_get_heat_transfer_coefficient, try_get_layer_conductance,
    try_get_ratio, try_get_reynolds_number, try_get_series_conductance, try_scale,
};
use crate::array_control_vol::fluid_array::FluidArray;
use crate::array_control_vol::solid_column::SolidColumn;
use crate::pre_built_components::conservation::{
    lemma_adiabatic_ends_at_node, lemma_lateral_link_at_node, lemma_power_link_at_node,
    node_temperature, registered_heat_rate,
};
use crate::pre_built_components::heat_transfer_entities::{
    CVType, EntityModel, HeatTransferEntity,
};
use crate::array_control_vol::power_fractions::{uniform, PowerFractions};
use crate::pre_built_components::nodalisation::{
    even_shares, filled, get_even_shares, link_adiabatic_ends, nodal_share,
    try_get_nodal_share, with_adiabatic_ends,
};
use crate::tuas_lib_error::TuasLibError;
use crate::units::{
    Area, HeatTransfer, Length, MassRate, Ratio, ThermalConductance, ThermodynamicTemperature,
    ONE_ATMOSPHERE,
};

verus! {

/// The inner diameter of the steel shell of the MX-10 static mixer.
pub const MX10_SHELL_INNER_DIAMETER: Length = 38_100;

/// The outer diameter of the steel shell of the MX-10 static mixer.
pub const MX10_SHELL_OUTER_DIAMETER: Length = 40_000;

/// The shape factor per length of the inner half of the steel shell of the
/// MX-10 static mixer, `2 pi / ln(d_mid / d_inner)` with `d_mid` the mean of
/// the inner and the outer diameter, rounded to the nearest millionth.
pub const MX10_INNER_HALF_SHELL_SHAPE_FACTOR_PER_LENGTH: Ratio = 255_117_497;

/// What an insulated fluid component with a porous interior is to this
/// library.
pub struct InsulatedPorousMediaModel {
    pub number_of_nodes: nat,
    pub interior_solid_array_for_porous_media: EntityModel,
    pub pipe_shell: EntityModel,
    pub pipe_fluid_array: EntityModel,
    pub insulation_array: EntityModel,
    pub ambient_temperature: ThermodynamicTemperature,
    pub heat_transfer_to_ambient: HeatTransfer,
    pub flow_area: Area,
    pub thermal_conductance_lengthscale_insulation_to_ambient: Length,
    pub convection_heat_transfer_area_insulation_to_ambient: Area,
    pub thermal_conductance_lengthscale_insulation_to_insulation_pipe_interface: Length,
    pub thermal_conductance_lengthscale_pipe_shell_to_insulation_pipe_interface: Length,
}

/// The conductance of one node of a solid layer of the given conductivity,
/// where `lengthscale` is the shape factor of the whole layer.
pub open spec fn nodal_layer_conductance(
    conductivity: i64,
    lengthscale: Length,
    number_of_nodes: nat,
) -> Result<ThermalConductance, TuasLibError> {
    match layer_conductance(conductivity, lengthscale) {
        Ok(whole) => nodal_share(whole, number_of_nodes),
        Err(e) => Err(e),
    }
}

/// The conductivity of the material of a solid column at its bulk
/// temperature.
pub open spec fn bulk_conductivity_of_solid(entity: EntityModel) -> Result<i64, TuasLibError> {
    match entity.solid_column() {
        Ok(array) => array.column.material.thermal_conductivity_at(array.column.bulk_temperature()),
        Err(e) => Err(e),
    }
}

/// Whether `entity` is a solid column of `number_of_nodes` nodes, with as
/// many temperatures.
pub open spec fn is_solid_column_of(entity: EntityModel, number_of_nodes: nat) -> bool {
    entity matches EntityModel::SolidArray(array) && array.column.len() == number_of_nodes
        && array.column.temperature.len() == number_of_nodes
}

/// Whether `entity` is a fluid array of `number_of_nodes` nodes, with as
/// many temperatures.
pub open spec fn is_fluid_array_of(entity: EntityModel, number_of_nodes: nat) -> bool {
    entity matches EntityModel::FluidArray(array) && array.column.len() == number_of_nodes
        && array.column.temperature.len() == number_of_nodes
}

/// Whether `entity` shows `number_of_nodes` temperatures.
pub open spec fn shows_temperatures(entity: EntityModel, number_of_nodes: nat) -> bool {
    entity.temperature_vector() is Ok && entity.temperature_vector()->Ok_0.len()
        == number_of_nodes
}

impl InsulatedPorousMediaModel {
    /// The component is valid: its four arrays are a fluid array and three
    /// solid columns of the number of nodes of the component each, two end
    /// nodes at least. A component is made valid, and no operation of the
    /// component on a valid one leaves it otherwise: the number of nodes
    /// never changes.
    pub open spec fn wf(self) -> bool {
        &&& self.number_of_nodes >= 2
        &&& is_fluid_array_of(self.pipe_fluid_array, self.number_of_nodes)
        &&& is_solid_column_of(self.pipe_shell, self.number_of_nodes)
        &&& is_solid_column_of(self.insulation_array, self.number_of_nodes)
        &&& is_solid_column_of(self.interior_solid_array_for_porous_media, self.number_of_nodes)
    }

    /// The Reynolds number of the flow `mass_flowrate` through the flow area
    /// of the component, on the hydraulic diameter of its fluid array, with
    /// the viscosity of the fluid at `temperature`.
    pub open spec fn hydraulic_diameter_reynolds(
        self,
        mass_flowrate: MassRate,
        temperature: ThermodynamicTemperature,
    ) -> Result<Ratio, TuasLibError> {
        match self.pipe_fluid_array.fluid_array() {
            Ok(fluid) => match fluid.column.material.dynamic_viscosity_at(temperature as int) {
                Ok(viscosity) => reynolds_number(
                    mass_flowrate,
                    fluid.hydraulic_diameter,
                    self.flow_area,
                    viscosity,
                ),
                Err(e) => Err(e),
            },
            Err(e) => Err(e),
        }
    }

    /// The conductance from the ambient air to the middle of the insulation
    /// of one node: the film on the insulation in series with the
    /// insulation, whose conductivity is taken at its bulk temperature.
    pub open spec fn air_insulation_shell_conductance(self, heat_transfer_coeff: HeatTransfer) -> Result<
        ThermalConductance,
        TuasLibError,
    > {
        match bulk_conductivity_of_solid(self.insulation_array) {
            Ok(conductivity) => match nodal_layer_conductance(
                conductivity,
                self.thermal_conductance_lengthscale_insulation_to_ambient,
                self.number_of_nodes,
            ) {
                Ok(layer) => match nodal_share(
                    self.convection_heat_transfer_area_insulation_to_ambient,
                    self.number_of_nodes,
                ) {
                    Ok(node_area) => match convective_conductance(heat_transfer_coeff, node_area) {
                        Ok(film) => series_conductance(film, layer),
                        Err(e) => Err(e),
                    },
                    Err(e) => Err(e),
                },
                Err(e) => Err(e),
            },
            Err(e) => Err(e),
        }
    }

    /// The conductance between the middle of the pipe shell and the middle
    /// of the insulation of one node: the two half layers in series, each
    /// with the conductivity of its material at its bulk temperature.
    pub open spec fn steel_to_fiberglass_conductance(self) -> Result<
        ThermalConductance,
        TuasLibError,
    > {
        match bulk_conductivity_of_solid(self.pipe_shell) {
            Ok(steel_conductivity) => match bulk_conductivity_of_solid(self.insulation_array) {
                Ok(fiberglass_conductivity) => match nodal_layer_conductance(
                    fiberglass_conductivity,
                    self.thermal_conductance_lengthscale_insulation_to_insulation_pipe_interface,
                    self.number_of_nodes,
                ) {
                    Ok(fiberglass_layer) => match nodal_layer_conductance(
                        steel_conductivity,
                        self.thermal_conductance_lengthscale_pipe_shell_to_insulation_pipe_interface,
                        self.number_of_nodes,
                    ) {
                        Ok(steel_layer) => series_conductance(fiberglass_layer, steel_layer),
                        Err(e) => Err(e),
                    },
                    Err(e) => Err(e),
                },
                Err(e) => Err(e),
            },
            Err(e) => Err(e),
        }
    }

    /// What the Nusselt correlation of the MX-10 is evaluated on, but for
    /// the friction factor: the Reynolds number of the present flow at the
    /// bulk temperature of the fluid, the Prandtl numbers of the fluid at its
    /// bulk temperature and at the wall, and the ratio of length to
    /// hydraulic diameter. The wall is at the bulk temperature of the pipe
    /// shell, moved to the nearest temperature at which the fluid is
    /// defined: the properties of the fluid are never extrapolated.
    pub open spec fn nusselt_data(self) -> Result<GnielinskiData, TuasLibError> {
        match self.pipe_fluid_array.fluid_array() {
            Ok(fluid) => match self.pipe_shell.solid_column() {
                Ok(shell) => match self.hydraulic_diameter_reynolds(
                    fluid.column.mass_flowrate,
                    fluid.column.bulk_temperature() as i64,
                ) {
                    Ok(reynolds) => match fluid.column.material.prandtl_at(
                        fluid.column.bulk_temperature(),
                    ) {
                        Ok(prandtl_bulk) => match fluid.column.material.prandtl_at(
                            fluid.column.material.clamped(shell.column.bulk_temperature()),
                        ) {
                            Ok(prandtl_wall) => match ratio_of(
                                fluid.component_length,
                                fluid.hydraulic_diameter,
                            ) {
                                Ok(length_to_diameter) => Ok(
                                    GnielinskiData {
                                        reynolds,
                                        prandtl_bulk,
                                        prandtl_wall,
                                        darcy_friction_factor: 0,
                                        length_to_diameter,
                                    },
                                ),
                                Err(e) => Err(e),
                            },
                            Err(e) => Err(e),
                        },
                        Err(e) => Err(e),
                    },
                    Err(e) => Err(e),
                },
                Err(e) => Err(e),
            },
            Err(e) => Err(e),
        }
    }

    /// The conductance between the fluid and the middle of the pipe shell of
    /// one node, for the Nusselt number `nusselt`: the film on the inner
    /// surface of the shell in series with the inner half of the shell.
    pub open spec fn fluid_to_shell_conductance(self, nusselt: Ratio) -> Result<
        ThermalConductance,
        TuasLibError,
    > {
        match self.pipe_fluid_array.fluid_array() {
            Ok(fluid) => match bulk_conductivity_of_solid(self.pipe_shell) {
                Ok(steel_conductivity) => match fluid.column.material.thermal_conductivity_at(
                    fluid.column.bulk_temperature(),
                ) {
                    Ok(fluid_conductivity) => match heat_transfer_coefficient(
                        nusselt,
                        fluid_conductivity,
                        fluid.hydraulic_diameter,
                    ) {
                        Ok(h) => match nodal_share(fluid.component_length, self.number_of_nodes) {
                            Ok(node_length) => match cylinder_lateral_area(
                                MX10_SHELL_INNER_DIAMETER,
                                node_length,
                            ) {
                                Ok(node_area) => match convective_conductance(h, node_area) {
                                    Ok(film) => match scaled_by(
                                        node_length,
                                        MX10_INNER_HALF_SHELL_SHAPE_FACTOR_PER_LENGTH,
                                    ) {
                                        Ok(shape_factor) => match layer_conductance(
                                            steel_conductivity,
                                            shape_factor,
                                        ) {
                                            Ok(half_shell) => series_conductance(half_shell, film),
                                            Err(e) => Err(e),
                                        },
                                        Err(e) => Err(e),
                                    },
                                    Err(e) => Err(e),
                                },
                                Err(e) => Err(e),
                            },
                            Err(e) => Err(e),
                        },
                        Err(e) => Err(e),
                    },
                    Err(e) => Err(e),
                },
                Err(e) => Err(e),
            },
            Err(e) => Err(e),
        }
    }

    /// The insulation after the lateral links of a step: to the ambient air
    /// and to the pipe shell.
    pub open spec fn insulation_connected(
        self,
        to_air: ThermalConductance,
        to_shell: ThermalConductance,
    ) -> Result<EntityModel, TuasLibError> {
        match self.pipe_shell.temperature_vector() {
            Ok(shell_temperatures) => match self.insulation_array.with_lateral_temperatures(
                to_air,
                uniform(self.number_of_nodes, self.ambient_temperature),
            ) {
                Ok(cooled) => match cooled.with_lateral_temperatures(to_shell, shell_temperatures) {
                    Ok(linked) => with_adiabatic_ends(linked),
                    Err(e) => Err(e),
                },
                Err(e) => Err(e),
            },
            Err(e) => Err(e),
        }
    }

    /// The pipe shell after the lateral links of a step: to the insulation,
    /// to the fluid, and to a heat source of no power.
    pub open spec fn shell_connected(
        self,
        to_insulation: ThermalConductance,
        to_fluid: ThermalConductance,
    ) -> Result<EntityModel, TuasLibError> {
        match self.insulation_array.temperature_vector() {
            Ok(insulation_temperatures) => match self.pipe_fluid_array.temperature_vector() {
                Ok(fluid_temperatures) => match self.pipe_shell.with_lateral_temperatures(
                    to_insulation,
                    insulation_temperatures,
                ) {
                    Ok(first) => match first.with_lateral_temperatures(to_fluid, fluid_temperatures) {
                        Ok(second) => match second.with_lateral_power(
                            0,
                            even_shares(self.number_of_nodes),
                        ) {
                            Ok(linked) => with_adiabatic_ends(linked),
                            Err(e) => Err(e),
                        },
                        Err(e) => Err(e),
                    },
                    Err(e) => Err(e),
                },
                Err(e) => Err(e),
            },
            Err(e) => Err(e),
        }
    }

    /// The fluid array after the lateral link of a step to the pipe shell,
    /// with its mass flow set.
    pub open spec fn fluid_connected(self, mass_flowrate: MassRate, to_shell: ThermalConductance) -> Result<
        EntityModel,
        TuasLibError,
    > {
        match self.pipe_shell.temperature_vector() {
            Ok(shell_temperatures) => match self.pipe_fluid_array.with_mass_flowrate(
                mass_flowrate,
            ) {
                Ok(flowing) => match flowing.with_lateral_temperatures(to_shell, shell_temperatures) {
                    Ok(linked) => with_adiabatic_ends(linked),
                    Err(e) => Err(e),
                },
                Err(e) => Err(e),
            },
            Err(e) => Err(e),
        }
    }

    /// The component after the lateral links of a step of the MX-10, for the
    /// mass flow `mass_flowrate` and the Nusselt number `nusselt` of the
    /// fluid on the pipe shell. Every array ends the step preparation with
    /// both ends adiabatic.
    pub open spec fn connected_mx10(self, mass_flowrate: MassRate, nusselt: Ratio) -> Result<
        InsulatedPorousMediaModel,
        TuasLibError,
    > {
        match self.air_insulation_shell_conductance(self.heat_transfer_to_ambient) {
            Ok(to_air) => match self.fluid_to_shell_conductance(nusselt) {
                Ok(to_fluid) => match self.steel_to_fiberglass_conductance() {
                    Ok(to_insulation) => match self.insulation_connected(to_air, to_insulation) {
                        Ok(insulation_array) => match self.shell_connected(to_insulation, to_fluid) {
                            Ok(pipe_shell) => match self.fluid_connected(mass_flowrate, to_fluid) {
                                Ok(pipe_fluid_array) => match with_adiabatic_ends(
                                    self.interior_solid_array_for_porous_media,
                                ) {
                                    Ok(interior_solid_array_for_porous_media) => Ok(
                                        InsulatedPorousMediaModel {
                                            interior_solid_array_for_porous_media,
                                            pipe_shell,
                                            pipe_fluid_array,
                                            insulation_array,
                                            ..self
                                        },
                                    ),
                                    Err(e) => Err(e),
                                },
                                Err(e) => Err(e),
                            },
                            Err(e) => Err(e),
                        },
                        Err(e) => Err(e),
                    },
                    Err(e) => Err(e),
                },
                Err(e) => Err(e),
            },
            Err(e) => Err(e),
        }
    }

    /// What the lateral links of a step hand the four arrays of the
    /// component at node `i`, in all.
    pub open spec fn gain_of_layers(self, after: InsulatedPorousMediaModel, i: int) -> int {
        registered_heat_rate(after.pipe_fluid_array, i) - registered_heat_rate(
            self.pipe_fluid_array,
            i,
        ) + registered_heat_rate(after.pipe_shell, i) - registered_heat_rate(self.pipe_shell, i)
            + registered_heat_rate(after.insulation_array, i) - registered_heat_rate(
            self.insulation_array,
            i,
        ) + registered_heat_rate(after.interior_solid_array_for_porous_media, i)
            - registered_heat_rate(self.interior_solid_array_for_porous_media, i)
    }

    /// Energy conservation of the preparation of a step of the MX-10. Each
    /// pair of neighbouring layers is linked through one conductance for
    /// both, so what one layer hands its neighbour the neighbour receives:
    /// at every node the arrays gain together what the ambient air hands
    /// the insulation, and nothing else.
    pub proof fn lemma_connected_layers_exchange_heat_in_balance(
        self,
        mass_flowrate: MassRate,
        nusselt: Ratio,
        i: int,
    )
        requires
            self.wf(),
            0 <= i < self.number_of_nodes,
            self.connected_mx10(mass_flowrate, nusselt) is Ok,
        ensures
            self.air_insulation_shell_conductance(self.heat_transfer_to_ambient) is Ok,
            self.gain_of_layers(self.connected_mx10(mass_flowrate, nusselt)->Ok_0, i)
                == self.air_insulation_shell_conductance(self.heat_transfer_to_ambient)->Ok_0 * (
            self.ambient_temperature - node_temperature(self.insulation_array, i)),
    {
        let to_air = self.air_insulation_shell_conductance(self.heat_transfer_to_ambient)->Ok_0;
        let to_fluid = self.fluid_to_shell_conductance(nusselt)->Ok_0;
        let to_insulation = self.steel_to_fiberglass_conductance()->Ok_0;
        let after = self.connected_mx10(mass_flowrate, nusselt)->Ok_0;
        let ambient = uniform(self.number_of_nodes, self.ambient_temperature);
        let shell_temperatures = self.pipe_shell.temperature_vector()->Ok_0;
        let fluid_temperatures = self.pipe_fluid_array.temperature_vector()->Ok_0;
        let insulation_temperatures = self.insulation_array.temperature_vector()->Ok_0;
        let t_ins = node_temperature(self.insulation_array, i);
        let t_shell = node_temperature(self.pipe_shell, i);
        let t_fluid = node_temperature(self.pipe_fluid_array, i);
        let t_amb = self.ambient_temperature as int;

        // the insulation
        let cooled = self.insulation_array.with_lateral_temperatures(to_air, ambient)->Ok_0;
        let insulation_linked = cooled.with_lateral_temperatures(
            to_insulation,
            shell_temperatures,
        )->Ok_0;
        lemma_lateral_link_at_node(self.insulation_array, to_air, ambient, i);
        lemma_lateral_link_at_node(cooled, to_insulation, shell_temperatures, i);
        lemma_adiabatic_ends_at_node(insulation_linked, i);
        assert(registered_heat_rate(after.insulation_array, i) - registered_heat_rate(
            self.insulation_array,
            i,
        ) == to_air * (t_amb - t_ins) + to_insulation * (t_shell - t_ins));

        // the pipe shell
        let first = self.pipe_shell.with_lateral_temperatures(
            to_insulation,
            insulation_temperatures,
        )->Ok_0;
        let second = first.with_lateral_temperatures(to_fluid, fluid_temperatures)->Ok_0;
        let shell_linked = second.with_lateral_power(0, even_shares(self.number_of_nodes))->Ok_0;
        lemma_lateral_link_at_node(self.pipe_shell, to_insulation, insulation_temperatures, i);
        lemma_lateral_link_at_node(first, to_fluid, fluid_temperatures, i);
        lemma_power_link_at_node(second, 0, even_shares(self.number_of_nodes), i);
        lemma_adiabatic_ends_at_node(shell_linked, i);
        assert(power_share(0, even_shares(self.number_of_nodes), i) == 0) by {
            assert(0 * sum_of(even_shares(self.number_of_nodes).take(i + 1)) == 0);
            assert(0 * sum_of(even_shares(self.number_of_nodes).take(i)) == 0);
        }
        assert(registered_heat_rate(after.pipe_shell, i) - registered_heat_rate(self.pipe_shell, i)
            == to_insulation * (t_ins - t_shell) + to_fluid * (t_fluid - t_shell));

        // the fluid
        let flowing = self.pipe_fluid_array.with_mass_flowrate(mass_flowrate)->Ok_0;
        let fluid_linked = flowing.with_lateral_temperatures(to_fluid, shell_temperatures)->Ok_0;
        lemma_lateral_link_at_node(flowing, to_fluid, shell_temperatures, i);
        lemma_adiabatic_ends_at_node(fluid_linked, i);
        assert(registered_heat_rate(after.pipe_fluid_array, i) - registered_heat_rate(
            self.pipe_fluid_array,
            i,
        ) == to_fluid * (t_shell - t_fluid));

        // the interior
        lemma_adiabatic_ends_at_node(self.interior_solid_array_for_porous_media, i);

        assert(to_insulation * (t_shell - t_ins) + to_insulation * (t_ins - t_shell) + to_fluid * (
        t_fluid - t_shell) + to_fluid * (t_shell - t_fluid) == 0) by (nonlinear_arith);
    }

    /// The component with both ends of all its arrays adiabatic.
    pub open spec fn with_zero_power_bc(self) -> Result<InsulatedPorousMediaModel, TuasLibError> {
        match with_adiabatic_ends(self.pipe_fluid_array) {
            Ok(pipe_fluid_array) => match with_adiabatic_ends(self.pipe_shell) {
                Ok(pipe_shell) => match with_adiabatic_ends(self.insulation_array) {
                    Ok(insulation_array) => match with_adiabatic_ends(
                        self.interior_solid_array_for_porous_media,
                    ) {
                        Ok(interior_solid_array_for_porous_media) => Ok(
                            InsulatedPorousMediaModel {
                                interior_solid_array_for_porous_media,
                                pipe_shell,
                                pipe_fluid_array,
                                insulation_array,
                                ..self
                            },
                        ),
                        Err(e) => Err(e),
                    },
                    Err(e) => Err(e),
                },
                Err(e) => Err(e),
            },
            Err(e) => Err(e),
        }
    }

    /// The component after a step of `timestep`: all four arrays advanced.
    pub open spec fn advanced(self, timestep: crate::units::Time) -> Result<
        InsulatedPorousMediaModel,
        TuasLibError,
    > {
        match self.pipe_fluid_array.advanced(timestep) {
            Ok(pipe_fluid_array) => match self.pipe_shell.advanced(timestep) {
                Ok(pipe_shell) => match self.insulation_array.advanced(timestep) {
                    Ok(insulation_array) => match self.interior_solid_array_for_porous_media.advanced(
                        timestep,
                    ) {
                        Ok(interior_solid_array_for_porous_media) => Ok(
                            InsulatedPorousMediaModel {
                                interior_solid_array_for_porous_media,
                                pipe_shell,
                                pipe_fluid_array,
                                insulation_array,
                                ..self
                            },
                        ),
                        Err(e) => Err(e),
                    },
                    Err(e) => Err(e),
                },
                Err(e) => Err(e),
            },
            Err(e) => Err(e),
        }
    }
}

/// A fluid component with a porous interior, a pipe shell and insulation:
/// four arrays of control volumes, of the same number of nodes, that
/// exchange heat node by node.
#[derive(Clone, Debug, PartialEq)]
pub struct InsulatedPorousMediaFluidComponent {
    /// The number of nodes of each array: the inner nodes and the two ends.
    pub number_of_nodes: usize,
    /// The solid inside the flow.
    pub interior_solid_array_for_porous_media: HeatTransferEntity,
    /// The pipe shell.
    pub pipe_shell: HeatTransferEntity,
    /// The fluid.
    pub pipe_fluid_array: HeatTransferEntity,
    /// The insulation around the pipe shell.
    pub insulation_array: HeatTransferEntity,
    /// The temperature of the ambient air.
    pub ambient_temperature: ThermodynamicTemperature,
    /// The heat transfer coefficient from the insulation to the ambient air.
    pub heat_transfer_to_ambient: HeatTransfer,
    /// The flow area.
    pub flow_area: Area,
    /// The shape factor of the outer half of the whole insulation.
    pub thermal_conductance_lengthscale_insulation_to_ambient: Length,
    /// The outer surface of the whole insulation.
    pub convection_heat_transfer_area_insulation_to_ambient: Area,
    /// The shape factor of the inner half of the whole insulation.
    pub thermal_conductance_lengthscale_insulation_to_insulation_pipe_interface: Length,
    /// The shape factor of the outer half of the whole pipe shell.
    pub thermal_conductance_lengthscale_pipe_shell_to_insulation_pipe_interface: Length,
}

impl View for InsulatedPorousMediaFluidComponent {
    type V = InsulatedPorousMediaModel;

    open spec fn view(&self) -> InsulatedPorousMediaModel {
        InsulatedPorousMediaModel {
            number_of_nodes: self.number_of_nodes as nat,
            interior_solid_array_for_porous_media: self.interior_solid_array_for_porous_media@,
            pipe_shell: self.pipe_shell@,
            pipe_fluid_array: self.pipe_fluid_array@,
            insulation_array: self.insulation_array@,
            ambient_temperature: self.ambient_temperature,
            heat_transfer_to_ambient: self.heat_transfer_to_ambient,
            flow_area: self.flow_area,
            thermal_conductance_lengthscale_insulation_to_ambient: self.thermal_conductance_lengthscale_insulation_to_ambient,
            convection_heat_transfer_area_insulation_to_ambient: self.convection_heat_transfer_area_insulation_to_ambient,
            thermal_conductance_lengthscale_insulation_to_insulation_pipe_interface: self.thermal_conductance_lengthscale_insulation_to_insulation_pipe_interface,
            thermal_conductance_lengthscale_pipe_shell_to_insulation_pipe_interface: self.thermal_conductance_lengthscale_pipe_shell_to_insulation_pipe_interface,
        }
    }
}

/// The conductance of one node of a solid layer of the given conductivity.
pub fn try_get_nodal_layer_conductance(
    conductivity: i64,
    lengthscale: Length,
    number_of_nodes: usize,
) -> (result: Result<ThermalConductance, TuasLibError>)
    ensures
        result == nodal_layer_conductance(conductivity, lengthscale, number_of_nodes as nat),
{
    let whole: i64 = try_get_layer_conductance(conductivity, lengthscale)?;
    try_get_nodal_share(whole, number_of_nodes)
}

/// The conductivity of the material of a solid column at its bulk
/// temperature.
pub fn try_get_bulk_conductivity_of_solid(entity: &HeatTransferEntity) -> (result: Result<
    i64,
    TuasLibError,
>)
    ensures
        result == bulk_conductivity_of_solid(entity@),
{
    let array = entity.as_solid_column()?;
    let temperature: i64 = array.column().bulk_temperature();
    array.material_control_volume().try_get_thermal_conductivity(temperature)
}

/// The temperatures of the nodes of `entity`.
pub fn try_get_temperatures(entity: &HeatTransferEntity) -> (result: Result<Vec<i64>, TuasLibError>)
    ensures
        match result {
            Ok(temperatures) => entity@.temperature_vector() == Ok::<Seq<i64>, TuasLibError>(
                temperatures@,
            ),
            Err(e) => entity@.temperature_vector() == Err::<Seq<i64>, TuasLibError>(e),
        },
{
    let mut copy = entity.duplicate();
    copy.get_temperature_vector()
}

impl InsulatedPorousMediaFluidComponent {
    /// The component of the four given arrays. All four have the same
    /// number of nodes, two at least: another number is a dimension
    /// mismatch.
    pub fn new(
        interior_solid_array_for_porous_media: SolidColumn,
        pipe_shell: SolidColumn,
        pipe_fluid_array: FluidArray,
        insulation_array: SolidColumn,
        ambient_temperature: ThermodynamicTemperature,
        heat_transfer_to_ambient: HeatTransfer,
        flow_area: Area,
        thermal_conductance_lengthscale_insulation_to_ambient: Length,
        convection_heat_transfer_area_insulation_to_ambient: Area,
        thermal_conductance_lengthscale_insulation_to_insulation_pipe_interface: Length,
        thermal_conductance_lengthscale_pipe_shell_to_insulation_pipe_interface: Length,
    ) -> (result: Result<InsulatedPorousMediaFluidComponent, TuasLibError>)
        ensures
            result is Ok <==> pipe_fluid_array@.column.len() >= 2 && pipe_shell@.column.len()
                == pipe_fluid_array@.column.len() && insulation_array@.column.len()
                == pipe_fluid_array@.column.len()
                && interior_solid_array_for_porous_media@.column.len()
                == pipe_fluid_array@.column.len(),
            result matches Err(e) ==> e == TuasLibError::DimensionMismatch,
            result matches Ok(component) ==> component@.wf() && component@ == (
            InsulatedPorousMediaModel {
                number_of_nodes: pipe_fluid_array@.column.len() as nat,
                interior_solid_array_for_porous_media: EntityModel::SolidArray(
                    interior_solid_array_for_porous_media@,
                ),
                pipe_shell: EntityModel::SolidArray(pipe_shell@),
                pipe_fluid_array: EntityModel::FluidArray(pipe_fluid_array@),
                insulation_array: EntityModel::SolidArray(insulation_array@),
                ambient_temperature,
                heat_transfer_to_ambient,
                flow_area,
                thermal_conductance_lengthscale_insulation_to_ambient,
                convection_heat_transfer_area_insulation_to_ambient,
                thermal_conductance_lengthscale_insulation_to_insulation_pipe_interface,
                thermal_conductance_lengthscale_pipe_shell_to_insulation_pipe_interface,
            }),
    {
        let number_of_nodes: usize = pipe_fluid_array.column().number_of_nodes();
        if number_of_nodes < 2 || pipe_shell.column().number_of_nodes() != number_of_nodes
            || insulation_array.column().number_of_nodes() != number_of_nodes
            || interior_solid_array_for_porous_media.column().number_of_nodes()
            != number_of_nodes {
            return Err(TuasLibError::DimensionMismatch);
        }
        Ok(
            InsulatedPorousMediaFluidComponent {
                number_of_nodes,
                interior_solid_array_for_porous_media: HeatTransferEntity::ControlVolume(
                    CVType::SolidArrayCV(interior_solid_array_for_porous_media),
                ),
                pipe_shell: HeatTransferEntity::ControlVolume(CVType::SolidArrayCV(pipe_shell)),
                pipe_fluid_array: HeatTransferEntity::ControlVolume(
                    CVType::FluidArrayCV(pipe_fluid_array),
                ),
                insulation_array: HeatTransferEntity::ControlVolume(
                    CVType::SolidArrayCV(insulation_array),
                ),
                ambient_temperature,
                heat_transfer_to_ambient,
                flow_area,
                thermal_conductance_lengthscale_insulation_to_ambient,
                convection_heat_transfer_area_insulation_to_ambient,
                thermal_conductance_lengthscale_insulation_to_insulation_pipe_interface,
                thermal_conductance_lengthscale_pipe_shell_to_insulation_pipe_interface,
            },
        )
    }

    /// A copy of the component.
    pub fn duplicate(&self) -> (copy: InsulatedPorousMediaFluidComponent)
        ensures
            copy@ == self@,
    {
        InsulatedPorousMediaFluidComponent {
            number_of_nodes: self.number_of_nodes,
            interior_solid_array_for_porous_media: self.interior_solid_array_for_porous_media.duplicate(),
            pipe_shell: self.pipe_shell.duplicate(),
            pipe_fluid_array: self.pipe_fluid_array.duplicate(),
            insulation_array: self.insulation_array.duplicate(),
            ambient_temperature: self.ambient_temperature,
            heat_transfer_to_ambient: self.heat_transfer_to_ambient,
            flow_area: self.flow_area,
            thermal_conductance_lengthscale_insulation_to_ambient: self.thermal_conductance_lengthscale_insulation_to_ambient,
            convection_heat_transfer_area_insulation_to_ambient: self.convection_heat_transfer_area_insulation_to_ambient,
            thermal_conductance_lengthscale_insulation_to_insulation_pipe_interface: self.thermal_conductance_lengthscale_insulation_to_insulation_pipe_interface,
            thermal_conductance_lengthscale_pipe_shell_to_insulation_pipe_interface: self.thermal_conductance_lengthscale_pipe_shell_to_insulation_pipe_interface,
        }
    }

    /// The temperatures of the nodes of the pipe shell. Reading them changes
    /// nothing. It is a conversion error where a boundary condition that
    /// states no temperature stands in the place of the array.
    pub fn pipe_shell_temperature(&mut self) -> (result: Result<Vec<ThermodynamicTemperature>, TuasLibError>)
        ensures
            final(self)@ == old(self)@,
            match result {
                Ok(temperatures) => old(self)@.pipe_shell.temperature_vector() == Ok::<
                    Seq<i64>,
                    TuasLibError,
                >(temperatures@),
                Err(e) => old(self)@.pipe_shell.temperature_vector() == Err::<Seq<i64>, TuasLibError>(
                    e,
                ),
            },
    {
        self.pipe_shell.get_temperature_vector()
    }

    /// The temperatures of the nodes of the fluid. Reading them changes
    /// nothing. It is a conversion error where a boundary condition that
    /// states no temperature stands in the place of the array.
    pub fn pipe_fluid_array_temperature(&mut self) -> (result: Result<Vec<ThermodynamicTemperature>, TuasLibError>)
        ensures
            final(self)@ == old(self)@,
            match result {
                Ok(temperatures) => old(self)@.pipe_fluid_array.temperature_vector() == Ok::<
                    Seq<i64>,
                    TuasLibError,
                >(temperatures@),
                Err(e) => old(self)@.pipe_fluid_array.temperature_vector() == Err::<Seq<i64>, TuasLibError>(
                    e,
                ),
            },
    {
        self.pipe_fluid_array.get_temperature_vector()
    }

    /// The temperatures of the nodes of the insulation. Reading them changes
    /// nothing. It is a conversion error where a boundary condition that
    /// states no temperature stands in the place of the array.
    pub fn insulation_array_temperature(&mut self) -> (result: Result<Vec<ThermodynamicTemperature>, TuasLibError>)
        ensures
            final(self)@ == old(self)@,
            match result {
                Ok(temperatures) => old(self)@.insulation_array.temperature_vector() == Ok::<
                    Seq<i64>,
                    TuasLibError,
                >(temperatures@),
                Err(e) => old(self)@.insulation_array.temperature_vector() == Err::<Seq<i64>, TuasLibError>(
                    e,
                ),
            },
    {
        self.insulation_array.get_temperature_vector()
    }

    /// The temperatures of the nodes of the solid inside the flow. Reading them changes
    /// nothing. It is a conversion error where a boundary condition that
    /// states no temperature stands in the place of the array.
    pub fn interior_solid_array_temperature(&mut self) -> (result: Result<Vec<ThermodynamicTemperature>, TuasLibError>)
        ensures
            final(self)@ == old(self)@,
            match result {
                Ok(temperatures) => old(self)@.interior_solid_array_for_porous_media.temperature_vector() == Ok::<
                    Seq<i64>,
                    TuasLibError,
                >(temperatures@),
                Err(e) => old(self)@.interior_solid_array_for_porous_media.temperature_vector() == Err::<Seq<i64>, TuasLibError>(
                    e,
                ),
            },
    {
        self.interior_solid_array_for_porous_media.get_temperature_vector()
    }

    /// The number of nodes of each array of the component: in a valid
    /// component two at least, and the length of each of its four vectors
    /// of temperatures.
    pub fn number_of_nodes(&self) -> (n: usize)
        ensures
            n == self@.number_of_nodes,
            self@.wf() ==> n >= 2,
            self@.wf() ==> shows_temperatures(self@.pipe_shell, n as nat),
            self@.wf() ==> shows_temperatures(self@.pipe_fluid_array, n as nat),
            self@.wf() ==> shows_temperatures(self@.insulation_array, n as nat),
            self@.wf() ==> shows_temperatures(self@.interior_solid_array_for_porous_media, n as nat),
    {
        self.number_of_nodes
    }

    /// The Reynolds number of the flow `mass_flowrate` through the
    /// component, on its hydraulic diameter and flow area, with the
    /// viscosity of the fluid at `temperature`.
    ///
    /// Fails with a conversion error where the fluid array is none, with a
    /// range error where the viscosity is not defined at `temperature`, and
    /// with a value that is not representable where the Reynolds number is.
    pub fn mx10_hydraulic_diameter_reynolds(
        &mut self,
        mass_flowrate: MassRate,
        temperature: ThermodynamicTemperature,
    ) -> (result: Result<Ratio, TuasLibError>)
        ensures
            final(self)@ == old(self)@,
            result == old(self)@.hydraulic_diameter_reynolds(mass_flowrate, temperature),
    {
        self.hydraulic_diameter_reynolds(mass_flowrate, temperature)
    }

    fn hydraulic_diameter_reynolds(
        &self,
        mass_flowrate: MassRate,
        temperature: ThermodynamicTemperature,
    ) -> (result: Result<Ratio, TuasLibError>)
        ensures
            result == self@.hydraulic_diameter_reynolds(mass_flowrate, temperature),
    {
        let fluid = self.pipe_fluid_array.as_fluid_array()?;
        let viscosity: i64 = fluid.material_control_volume().try_get_dynamic_viscosity(temperature)?;
        try_get_reynolds_number(
            mass_flowrate,
            fluid.get_hydraulic_diameter(),
            self.flow_area,
            viscosity,
        )
    }

    /// The conductance from the ambient air to the middle of the insulation
    /// of one node.
    ///
    /// Fails with a conversion error where the insulation is no solid
    /// column, with a range error where its conductivity is not defined at
    /// its bulk temperature, and with a value that is not representable
    /// where a conductance or an area is.
    pub fn get_air_insulation_shell_conductance_mx10(
        &mut self,
        h_air_to_insulation_surf: HeatTransfer,
    ) -> (result: Result<ThermalConductance, TuasLibError>)
        ensures
            final(self)@ == old(self)@,
            result == old(self)@.air_insulation_shell_conductance(h_air_to_insulation_surf),
    {
        self.air_insulation_shell_conductance(h_air_to_insulation_surf)
    }

    fn air_insulation_shell_conductance(&self, h_air_to_insulation_surf: HeatTransfer) -> (result:
        Result<ThermalConductance, TuasLibError>)
        ensures
            result == self@.air_insulation_shell_conductance(h_air_to_insulation_surf),
    {
        let number_of_temperature_nodes: usize = self.number_of_nodes;
        let fiberglass_conductivity: i64 = try_get_bulk_conductivity_of_solid(
            &self.insulation_array,
        )?;
        let fiberglass_layer_conductance: i64 = try_get_nodal_layer_conductance(
            fiberglass_conductivity,
            self.thermal_conductance_lengthscale_insulation_to_ambient,
            number_of_temperature_nodes,
        )?;
        let node_area: i64 = try_get_nodal_share(
            self.convection_heat_transfer_area_insulation_to_ambient,
            number_of_temperature_nodes,
        )?;
        let air_convection_conductance: i64 = try_get_convective_conductance(
            h_air_to_insulation_surf,
            node_area,
        )?;
        try_get_series_conductance(air_convection_conductance, fiberglass_layer_conductance)
    }

    /// What the Nusselt correlation of the component is evaluated on, but
    /// for the friction factor, which is left at zero.
    ///
    /// Fails with a conversion error where the fluid array or the pipe shell
    /// is of another kind, and with a value that is not representable where
    /// a number is. A pipe shell hotter or colder than the fluid is defined
    /// is no failure: the wall counts with the nearest temperature of the
    /// range of the fluid.
    pub fn get_nusselt_data_mx10(&self) -> (result: Result<GnielinskiData, TuasLibError>)
        ensures
            result == self@.nusselt_data(),
    {
        let fluid = self.pipe_fluid_array.as_fluid_array()?;
        let shell = self.pipe_shell.as_solid_column()?;
        let bulk_temperature: i64 = fluid.column().bulk_temperature();
        let steel_surf_temperature: i64 = shell.column().bulk_temperature();
        let reynolds: i64 = self.hydraulic_diameter_reynolds(
            fluid.get_mass_flowrate(),
            bulk_temperature,
        )?;
        let prandtl_bulk: i64 = fluid.material_control_volume().try_get_prandtl_liquid(
            bulk_temperature,
            ONE_ATMOSPHERE,
        )?;
        // a wall beyond the range of the fluid counts with the nearest
        // temperature of the range
        let fluid_material = fluid.material_control_volume();
        let mut wall_temperature_estimate: i64 = steel_surf_temperature;
        if wall_temperature_estimate > fluid_material.max_temperature() {
            wall_temperature_estimate = fluid_material.max_temperature();
        } else if wall_temperature_estimate < fluid_material.min_temperature() {
            wall_temperature_estimate = fluid_material.min_temperature();
        }
        let prandtl_wall: i64 = fluid_material.try_get_prandtl_liquid(
            wall_temperature_estimate,
            ONE_ATMOSPHERE,
        )?;
        let length_to_diameter: i64 = try_get_ratio(
            fluid.get_component_length(),
            fluid.get_hydraulic_diameter(),
        )?;
        Ok(
            GnielinskiData {
                reynolds,
                prandtl_bulk,
                prandtl_wall,
                darcy_friction_factor: 0,
                length_to_diameter,
            },
        )
    }

    /// The conductance between the fluid and the middle of the pipe shell of
    /// one node, for the Nusselt number `nusselt_estimate` of the fluid on
    /// the pipe shell.
    ///
    /// Fails with a conversion error where the fluid array or the pipe shell
    /// is of another kind, with a range error where a conductivity is not
    /// defined at the bulk temperature of its array, and with a value that
    /// is not representable where a number is.
    pub fn get_therminol_node_steel_shell_conductance_mx10(&mut self, nusselt_estimate: Ratio) -> (result:
        Result<ThermalConductance, TuasLibError>)
        ensures
            final(self)@ == old(self)@,
            result == old(self)@.fluid_to_shell_conductance(nusselt_estimate),
    {
        self.fluid_to_shell_conductance(nusselt_estimate)
    }

    fn fluid_to_shell_conductance(&self, nusselt_estimate: Ratio) -> (result: Result<
        ThermalConductance,
        TuasLibError,
    >)
        ensures
            result == self@.fluid_to_shell_conductance(nusselt_estimate),
    {
        let fluid = self.pipe_fluid_array.as_fluid_array()?;
        let steel_conductivity: i64 = try_get_bulk_conductivity_of_solid(&self.pipe_shell)?;
        let bulk_temperature: i64 = fluid.column().bulk_temperature();
        let k_fluid_average: i64 = fluid.material_control_volume().try_get_thermal_conductivity(
            bulk_temperature,
        )?;
        let h: i64 = try_get_heat_transfer_coefficient(
            nusselt_estimate,
            k_fluid_average,
            fluid.get_hydraulic_diameter(),
        )?;
        let node_length: i64 = try_get_nodal_share(
            fluid.get_component_length(),
            self.number_of_nodes,
        )?;
        let heat_transfer_area_per_node: i64 = try_get_cylinder_lateral_area(
            MX10_SHELL_INNER_DIAMETER,
            node_length,
        )?;
        let therminol_to_steel_shell_average_conductance: i64 = try_get_convective_conductance(
            h,
            heat_transfer_area_per_node,
        )?;
        let shape_factor: i64 = try_scale(
            node_length,
            MX10_INNER_HALF_SHELL_SHAPE_FACTOR_PER_LENGTH,
        )?;
        let cylinder_node_conductance: i64 = try_get_layer_conductance(
            steel_conductivity,
            shape_factor,
        )?;
        try_get_series_conductance(
            cylinder_node_conductance,
            therminol_to_steel_shell_average_conductance,
        )
    }

    /// The conductance between the middle of the pipe shell and the middle
    /// of the insulation of one node.
    ///
    /// Fails with a conversion error where the pipe shell or the insulation
    /// is no solid column, with a range error where a conductivity is not
    /// defined at the bulk temperature of its array, and with a value that
    /// is not representable where a conductance is.
    pub fn get_steel_to_fiberglass_conductance_mx10_nodal(&self) -> (result: Result<
        ThermalConductance,
        TuasLibError,
    >)
        ensures
            result == self@.steel_to_fiberglass_conductance(),
    {
        let number_of_temperature_nodes: usize = self.number_of_nodes;
        let steel_conductivity: i64 = try_get_bulk_conductivity_of_solid(&self.pipe_shell)?;
        let fiberglass_conductivity: i64 = try_get_bulk_conductivity_of_solid(
            &self.insulation_array,
        )?;
        let fiberglass_layer_conductance_nodal: i64 = try_get_nodal_layer_conductance(
            fiberglass_conductivity,
            self.thermal_conductance_lengthscale_insulation_to_insulation_pipe_interface,
            number_of_temperature_nodes,
        )?;
        let steel_layer_conductance_nodal: i64 = try_get_nodal_layer_conductance(
            steel_conductivity,
            self.thermal_conductance_lengthscale_pipe_shell_to_insulation_pipe_interface,
            number_of_temperature_nodes,
        )?;
        try_get_series_conductance(fiberglass_layer_conductance_nodal, steel_layer_conductance_nodal)
    }

    /// Sets the mass flow through the fluid array; a conversion error where
    /// the fluid array is none.
    pub fn set_mass_flowrate(&mut self, mass_flowrate: MassRate) -> (result: Result<(), TuasLibError>)
        ensures
            result == outcome(old(self)@.pipe_fluid_array.with_mass_flowrate(mass_flowrate)),
            final(self)@ == (InsulatedPorousMediaModel {
                pipe_fluid_array: state_after(
                    old(self)@.pipe_fluid_array.with_mass_flowrate(mass_flowrate),
                    old(self)@.pipe_fluid_array,
                ),
                ..old(self)@
            }),
            old(self)@.wf() ==> final(self)@.wf(),
    {
        self.pipe_fluid_array.set_mass_flowrate(mass_flowrate)
    }

    /// Links both ends of every array of the component to the boundary
    /// through which no heat passes. Another link may be made to any end
    /// afterwards, and then counts in its place.
    ///
    /// Fails with a conversion error where one of the arrays is a boundary
    /// condition. A failure changes nothing.
    pub fn zero_power_bc_connection(&mut self) -> (result: Result<(), TuasLibError>)
        ensures
            result == outcome(old(self)@.with_zero_power_bc()),
            final(self)@ == state_after(old(self)@.with_zero_power_bc(), old(self)@),
            old(self)@.wf() ==> final(self)@.wf(),
    {
        let mut fluid_clone = self.pipe_fluid_array.duplicate();
        link_adiabatic_ends(&mut fluid_clone)?;
        let mut shell_clone = self.pipe_shell.duplicate();
        link_adiabatic_ends(&mut shell_clone)?;
        let mut insulation_clone = self.insulation_array.duplicate();
        link_adiabatic_ends(&mut insulation_clone)?;
        let mut interior_clone = self.interior_solid_array_for_porous_media.duplicate();
        link_adiabatic_ends(&mut interior_clone)?;
        self.pipe_fluid_array = fluid_clone;
        self.pipe_shell = shell_clone;
        self.insulation_array = insulation_clone;
        self.interior_solid_array_for_porous_media = interior_clone;
        Ok(())
    }

    /// Prepares one step of the MX-10: computes the conductances between the
    /// layers from the present temperatures, links the insulation to the
    /// ambient air and to the pipe shell, the pipe shell to the insulation
    /// and to the fluid, the fluid to the pipe shell, sets the mass flow
    /// through the fluid, and leaves both ends of every array adiabatic.
    /// `nusselt_estimate` is the Nusselt number of the fluid on the pipe
    /// shell, for the data that `get_nusselt_data_mx10` gives.
    ///
    /// Adiabatic ends are the default. Where the component stands in a loop,
    /// the ends of its fluid are linked to its neighbours after this call
    /// and before the step, so that the flow has where to come from and
    /// where to go.
    ///
    /// Fails with the error of the first conductance or link that fails. A
    /// failure changes nothing.
    pub fn lateral_and_miscellaneous_connections_mx10(
        &mut self,
        mass_flowrate: MassRate,
        nusselt_estimate: Ratio,
    ) -> (result: Result<(), TuasLibError>)
        ensures
            result == outcome(old(self)@.connected_mx10(mass_flowrate, nusselt_estimate)),
            final(self)@ == state_after(
                old(self)@.connected_mx10(mass_flowrate, nusselt_estimate),
                old(self)@,
            ),
            old(self)@.wf() ==> final(self)@.wf(),
    {
        let h_air_to_steel_surf: i64 = self.heat_transfer_to_ambient;
        let insulation_to_air_conductance: i64 = self.air_insulation_shell_conductance(
            h_air_to_steel_surf,
        )?;
        let tube_to_fluid_conductance: i64 = self.fluid_to_shell_conductance(nusselt_estimate)?;
        let tube_to_insulation_conductance: i64 =
            self.get_steel_to_fiberglass_conductance_mx10_nodal()?;
        let number_of_temperature_nodes: usize = self.number_of_nodes;
        let ambient_temperature_vector: Vec<i64> = filled(
            number_of_temperature_nodes,
            self.ambient_temperature,
        );

        // the insulation
        let steel_temp_vector: Vec<i64> = try_get_temperatures(&self.pipe_shell)?;
        let mut insulation_array_clone = self.insulation_array.duplicate();
        insulation_array_clone.lateral_link_new_temperature_vector_avg_conductance(
            insulation_to_air_conductance,
            ambient_temperature_vector,
        )?;
        insulation_array_clone.lateral_link_new_temperature_vector_avg_conductance(
            tube_to_insulation_conductance,
            steel_temp_vector,
        )?;
        link_adiabatic_ends(&mut insulation_array_clone)?;

        // the pipe shell; its heat source of no power is spread evenly
        let q_frac_arr: PowerFractions = get_even_shares(number_of_temperature_nodes);
        let insulation_temp_vector: Vec<i64> = try_get_temperatures(&self.insulation_array)?;
        let fluid_temp_vector: Vec<i64> = try_get_temperatures(&self.pipe_fluid_array)?;
        let mut steel_shell_clone = self.pipe_shell.duplicate();
        steel_shell_clone.lateral_link_new_temperature_vector_avg_conductance(
            tube_to_insulation_conductance,
            insulation_temp_vector,
        )?;
        steel_shell_clone.lateral_link_new_temperature_vector_avg_conductance(
            tube_to_fluid_conductance,
            fluid_temp_vector,
        )?;
        steel_shell_clone.lateral_link_new_power_vector(0, q_frac_arr)?;
        link_adiabatic_ends(&mut steel_shell_clone)?;

        // the fluid
        let steel_temp_vector: Vec<i64> = try_get_temperatures(&self.pipe_shell)?;
        let mut therminol_array_clone = self.pipe_fluid_array.duplicate();
        therminol_array_clone.set_mass_flowrate(mass_flowrate)?;
        therminol_array_clone.lateral_link_new_temperature_vector_avg_conductance(
            tube_to_fluid_conductance,
            steel_temp_vector,
        )?;
        link_adiabatic_ends(&mut therminol_array_clone)?;

        // the solid inside the flow
        let mut interior_clone = self.interior_solid_array_for_porous_media.duplicate();
        link_adiabatic_ends(&mut interior_clone)?;

        self.pipe_fluid_array = therminol_array_clone;
        self.pipe_shell = steel_shell_clone;
        self.insulation_array = insulation_array_clone;
        self.interior_solid_array_for_porous_media = interior_clone;
        Ok(())
    }

    /// Advances every array of the component by `timestep` and consumes the
    /// links. Fails with a range error where the material of an array is
    /// not defined at the new specific enthalpy of a node. A failure changes
    /// nothing.
    pub fn advance_timestep(&mut self, timestep: crate::units::Time) -> (result: Result<
        (),
        TuasLibError,
    >)
        ensures
            result == outcome(old(self)@.advanced(timestep)),
            final(self)@ == state_after(old(self)@.advanced(timestep), old(self)@),
            old(self)@.wf() ==> final(self)@.wf(),
    {
        let mut fluid_clone = self.pipe_fluid_array.duplicate();
        fluid_clone.advance_timestep(timestep)?;
        let mut shell_clone = self.pipe_shell.duplicate();
        shell_clone.advance_timestep(timestep)?;
        let mut insulation_clone = self.insulation_array.duplicate();
        insulation_clone.advance_timestep(timestep)?;
        let mut interior_clone = self.interior_solid_array_for_porous_media.duplicate();
        interior_clone.advance_timestep(timestep)?;
        self.pipe_fluid_array = fluid_clone;
        self.pipe_shell = shell_clone;
        self.insulation_array = insulation_clone;
        self.interior_solid_array_for_porous_media = interior_clone;
        Ok(())
    }
}

} // verus!
