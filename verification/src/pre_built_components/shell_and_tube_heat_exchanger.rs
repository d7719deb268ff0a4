use vstd::prelude::*;
use crate::array_control_vol::column::{outcome, state_after};
use crate::array_control_vol::fluid_array::FluidArrayModel;
use crate::boussinesq_thermophysical_properties::material::MaterialModel;
use crate::fixed_point::{div_towards_zero, quotient_towards_zero, representable};
use crate::heat_transfer_correlations::heat_transfer_interactions::{
    cylindrical_conductance, try_get_thermal_conductance_based_on_interaction,
    DataCylindricalConductionConvection, HeatTransferInteractionType,
};
use crate::heat_transfer_correlations::nusselt_number_correlations::GnielinskiData;
use crate::heat_transfer_correlations::thermal_resistance::{
    heat_transfer_coefficient, layer_conductance, parallel_conductance, ratio_of,
    reynolds_number, scaled_by, series_conductance, try_get_heat_transfer_coefficient,
    try_get_layer_conductance, try_get_parallel_conductance, try_get_ratio,
    try_get_reynolds_number, try_get_series_conductance, try_scale,
};
use crate::pre_built_components::conservation::{
    lemma_lateral_link_at_node, node_temperature, registered_heat_rate,
};
use crate::pre_built_components::heat_transfer_entities::{EntityModel, HeatTransferEntity};
use crate::pre_built_components::insulated_porous_media_fluid_components::{
    bulk_conductivity_of_solid, is_fluid_array_of, is_solid_column_of,
    try_get_bulk_conductivity_of_solid, try_get_temperatures,
};
use crate::array_control_vol::power_fractions::uniform;
use crate::pre_built_components::nodalisation::{
    filled, link_adiabatic_ends, nodal_share, try_get_nodal_share, with_adiabatic_ends,
};
use crate::tuas_lib_error::TuasLibError;
use crate::units::{
    Area, HeatTransfer, Length, MassRate, Ratio, ThermalConductance, ThermodynamicTemperature,
    Time, ONE_ATMOSPHERE,
};

verus! {

/// The shape factors per length, `2 pi / ln(d_outer / d_inner)`, of the half
/// layers of the walls of a shell and tube heat exchanger. The middle of a
/// wall lies at the mean of its inner and its outer diameter.
#[derive(Clone, Copy, Debug, PartialEq, Eq, Structural)]
pub struct HalfLayerShapeFactors {
    /// From the inner surface of a tube to the middle of its wall.
    pub tube_inner_half: Ratio,
    /// From the middle of the wall of a tube to its outer surface.
    pub tube_outer_half: Ratio,
    /// From the inner surface of the outer shell to its middle.
    pub shell_inner_half: Ratio,
    /// From the middle of the outer shell to its outer surface.
    pub shell_outer_half: Ratio,
    /// From the inner surface of the insulation to its middle.
    pub insulation_inner_half: Ratio,
    /// From the middle of the insulation to its outer surface.
    pub insulation_outer_half: Ratio,
}

/// The Nusselt numbers of the three films of a shell and tube heat
/// exchanger.
#[derive(Clone, Copy, Debug, PartialEq, Eq, Structural)]
pub struct ShellAndTubeNusseltNumbers {
    /// Of the tube side fluid on the inner surface of a tube.
    pub tube_side: Ratio,
    /// Of the shell side fluid on the outer surface of a tube.
    pub shell_side_to_tubes: Ratio,
    /// Of the shell side fluid on the outer shell.
    pub shell_side_to_outer_shell: Ratio,
}

/// What a shell and tube heat exchanger is to this library.
pub struct ShellAndTubeModel {
    pub number_of_nodes: nat,
    pub number_of_tubes: u32,
    pub heat_exchanger_has_insulation: bool,
    pub tube_side_fluid_array_for_single_tube: EntityModel,
    pub inner_pipe_shell_array_for_single_tube: EntityModel,
    pub shell_side_fluid_array: EntityModel,
    pub outer_shell: EntityModel,
    pub insulation_array: EntityModel,
    pub ambient_temperature: ThermodynamicTemperature,
    pub heat_transfer_to_ambient: HeatTransfer,
    pub tube_side_id: Length,
    pub tube_side_od: Length,
    pub shell_side_id: Length,
    pub shell_side_od: Length,
    pub insulation_thickness: Length,
    pub shape_factors: HalfLayerShapeFactors,
}

/// The temperature at which the Prandtl number at a wall is taken: the wall
/// temperature, moved to the nearest temperature at which the fluid is
/// defined. The properties of the fluid are never extrapolated.
pub open spec fn wall_temperature_estimate(fluid: MaterialModel, wall_temperature: int) -> int {
    fluid.clamped(wall_temperature)
}

/// What the Nusselt correlation of a film is evaluated on, but for the
/// friction factor: the size of the Reynolds number of the flow through
/// `flow_area` on `hydraulic_diameter`, the Prandtl number of the fluid at
/// its bulk temperature, the Prandtl number at the wall, which without wall
/// correction is the one at the bulk temperature, and the ratio of the
/// length of the fluid array to its hydraulic diameter.
pub open spec fn film_nusselt_data(
    fluid: FluidArrayModel,
    hydraulic_diameter: Length,
    flow_area: Area,
    wall_temperature: int,
    correct_prandtl_for_wall_temperatures: bool,
) -> Result<GnielinskiData, TuasLibError>
    recommends
        fluid.wf(),
{
    let material = fluid.column.material;
    let bulk = fluid.column.bulk_temperature();
    match material.dynamic_viscosity_at(bulk) {
        Ok(viscosity) => match reynolds_number(
            fluid.column.mass_flowrate,
            hydraulic_diameter,
            flow_area,
            viscosity,
        ) {
            Ok(reynolds) => match representable(
                if reynolds >= 0 {
                    reynolds as int
                } else {
                    -reynolds
                },
            ) {
                Ok(reynolds_size) => match material.prandtl_at(bulk) {
                    Ok(prandtl_bulk) => match ratio_of(
                        fluid.component_length,
                        fluid.hydraulic_diameter,
                    ) {
                        Ok(length_to_diameter) => if correct_prandtl_for_wall_temperatures {
                            match material.prandtl_at(
                                wall_temperature_estimate(material, wall_temperature),
                            ) {
                                Ok(prandtl_wall) => Ok(
                                    GnielinskiData {
                                        reynolds: reynolds_size,
                                        prandtl_bulk,
                                        prandtl_wall,
                                        darcy_friction_factor: 0,
                                        length_to_diameter,
                                    },
                                ),
                                Err(e) => Err(e),
                            }
                        } else {
                            Ok(
                                GnielinskiData {
                                    reynolds: reynolds_size,
                                    prandtl_bulk,
                                    prandtl_wall: prandtl_bulk,
                                    darcy_friction_factor: 0,
                                    length_to_diameter,
                                },
                            )
                        },
                        Err(e) => Err(e),
                    },
                    Err(e) => Err(e),
                },
                Err(e) => Err(e),
            },
            Err(e) => Err(e),
        },
        Err(e) => Err(e),
    }
}

/// The conductance of one node between a fluid and the middle of a
/// cylindrical wall: the film of the Nusselt number `nusselt` on the surface
/// of diameter `film_diameter` in series with the half of the wall that has
/// the shape factor per length `half_layer`.
pub open spec fn film_to_wall_conductance(
    nusselt: Ratio,
    fluid_conductivity: i64,
    hydraulic_diameter: Length,
    wall_conductivity: i64,
    half_layer: Ratio,
    film_diameter: Length,
    node_length: Length,
) -> Result<ThermalConductance, TuasLibError> {
    match heat_transfer_coefficient(nusselt, fluid_conductivity, hydraulic_diameter) {
        Ok(heat_transfer_coeff) => half_wall_and_film_conductance(
            heat_transfer_coeff,
            wall_conductivity,
            half_layer,
            film_diameter,
            node_length,
        ),
        Err(e) => Err(e),
    }
}

/// The conductance of one node between the surroundings of a cylindrical
/// wall and its middle: the film of the given heat transfer coefficient on
/// the surface of diameter `film_diameter` in series with the half of the
/// wall that has the shape factor per length `half_layer`.
pub open spec fn half_wall_and_film_conductance(
    heat_transfer_coeff: HeatTransfer,
    wall_conductivity: i64,
    half_layer: Ratio,
    film_diameter: Length,
    node_length: Length,
) -> Result<ThermalConductance, TuasLibError> {
    match scaled_by(node_length, half_layer) {
        Ok(shape_factor) => cylindrical_conductance(
            DataCylindricalConductionConvection {
                solid_conductivity: wall_conductivity,
                solid_shape_factor: shape_factor,
                heat_transfer_coeff,
                film_diameter,
                node_length,
            },
        ),
        Err(e) => Err(e),
    }
}

/// The conductance of one node of the half of a cylindrical wall that has
/// the shape factor per length `half_layer`.
pub open spec fn half_wall_conductance(
    wall_conductivity: i64,
    half_layer: Ratio,
    node_length: Length,
) -> Result<ThermalConductance, TuasLibError> {
    match scaled_by(node_length, half_layer) {
        Ok(shape_factor) => layer_conductance(wall_conductivity, shape_factor),
        Err(e) => Err(e),
    }
}

/// The entity after lateral links to two neighbours.
pub open spec fn linked_to_two(
    entity: EntityModel,
    first: ThermalConductance,
    first_temperatures: Result<Seq<i64>, TuasLibError>,
    second: ThermalConductance,
    second_temperatures: Result<Seq<i64>, TuasLibError>,
) -> Result<EntityModel, TuasLibError> {
    match first_temperatures {
        Ok(a) => match second_temperatures {
            Ok(b) => match entity.with_lateral_temperatures(first, a) {
                Ok(once) => once.with_lateral_temperatures(second, b),
                Err(e) => Err(e),
            },
            Err(e) => Err(e),
        },
        Err(e) => Err(e),
    }
}

/// Lateral links to two neighbours hand node `i` what each of the two links
/// hands it.
pub proof fn lemma_linked_to_two_at_node(
    entity: EntityModel,
    first: ThermalConductance,
    first_temperatures: Result<Seq<i64>, TuasLibError>,
    second: ThermalConductance,
    second_temperatures: Result<Seq<i64>, TuasLibError>,
    i: int,
)
    requires
        linked_to_two(entity, first, first_temperatures, second, second_temperatures) is Ok,
        0 <= i < entity.column()->Some_0.len(),
    ensures
        entity.column() is Some,
        first_temperatures is Ok,
        second_temperatures is Ok,
        first_temperatures->Ok_0.len() == entity.column()->Some_0.len(),
        second_temperatures->Ok_0.len() == entity.column()->Some_0.len(),
        registered_heat_rate(
            linked_to_two(entity, first, first_temperatures, second, second_temperatures)->Ok_0,
            i,
        ) == registered_heat_rate(entity, i) + first * (first_temperatures->Ok_0[i]
            - node_temperature(entity, i)) + second * (second_temperatures->Ok_0[i]
            - node_temperature(entity, i)),
{
    let a = first_temperatures->Ok_0;
    let b = second_temperatures->Ok_0;
    let once = entity.with_lateral_temperatures(first, a)->Ok_0;
    assert(a.len() == entity.column()->Some_0.len());
    lemma_lateral_link_at_node(entity, first, a, i);
    lemma_lateral_link_at_node(once, second, b, i);
}

impl ShellAndTubeModel {
    /// The arrays of the heat exchanger are two fluid arrays and two solid
    /// columns of the number of nodes of the heat exchanger each, and with
    /// insulation a third solid column of as many. No operation of the heat
    /// exchanger on a valid one leaves it otherwise.
    pub open spec fn wf(self) -> bool {
        &&& is_fluid_array_of(self.tube_side_fluid_array_for_single_tube, self.number_of_nodes)
        &&& is_solid_column_of(self.inner_pipe_shell_array_for_single_tube, self.number_of_nodes)
        &&& is_fluid_array_of(self.shell_side_fluid_array, self.number_of_nodes)
        &&& is_solid_column_of(self.outer_shell, self.number_of_nodes)
        &&& self.heat_exchanger_has_insulation ==> is_solid_column_of(
            self.insulation_array,
            self.number_of_nodes,
        )
    }

    /// What the lateral links of a step hand the layers at node `i`, all
    /// tubes counted: the gain of the tube side fluid and of the wall of one
    /// tube, times the number of tubes, and the gains of the shell side
    /// fluid, of the outer shell and, where there is one, of the insulation.
    pub open spec fn gain_of_layers(self, after: ShellAndTubeModel, i: int) -> int {
        self.number_of_tubes * (registered_heat_rate(
            after.tube_side_fluid_array_for_single_tube,
            i,
        ) - registered_heat_rate(self.tube_side_fluid_array_for_single_tube, i)
            + registered_heat_rate(after.inner_pipe_shell_array_for_single_tube, i)
            - registered_heat_rate(self.inner_pipe_shell_array_for_single_tube, i))
            + registered_heat_rate(after.shell_side_fluid_array, i) - registered_heat_rate(
            self.shell_side_fluid_array,
            i,
        ) + registered_heat_rate(after.outer_shell, i) - registered_heat_rate(self.outer_shell, i)
            + (if self.heat_exchanger_has_insulation {
            registered_heat_rate(after.insulation_array, i) - registered_heat_rate(
                self.insulation_array,
                i,
            )
        } else {
            0
        })
    }

    /// Energy conservation between the layers of the heat exchanger. Where
    /// the shell side fluid is linked to the walls of the tubes through the
    /// conductance of one tube times the number of tubes, what one layer
    /// hands its neighbour the neighbour receives, summed over all tubes:
    /// at every node the layers gain together, all tubes counted, what the
    /// ambient air hands the outermost layer, and nothing else.
    pub proof fn lemma_layers_exchange_heat_in_balance(
        self,
        outer_layer_to_air: ThermalConductance,
        shell_side_to_outer_shell: ThermalConductance,
        tube_to_shell_side: ThermalConductance,
        tube_to_tube_side: ThermalConductance,
        i: int,
    )
        requires
            self.wf(),
            0 <= i < self.number_of_nodes,
            parallel_conductance(tube_to_shell_side, self.number_of_tubes) is Ok,
            self.laterally_linked(
                outer_layer_to_air,
                shell_side_to_outer_shell,
                tube_to_shell_side,
                parallel_conductance(tube_to_shell_side, self.number_of_tubes)->Ok_0,
                tube_to_tube_side,
            ) is Ok,
        ensures
            self.gain_of_layers(
                self.laterally_linked(
                    outer_layer_to_air,
                    shell_side_to_outer_shell,
                    tube_to_shell_side,
                    parallel_conductance(tube_to_shell_side, self.number_of_tubes)->Ok_0,
                    tube_to_tube_side,
                )->Ok_0,
                i,
            ) == outer_layer_to_air * (self.ambient_temperature - node_temperature(
                self.outer_layer(),
                i,
            )),
    {
        let bundle = parallel_conductance(tube_to_shell_side, self.number_of_tubes)->Ok_0;
        let after = self.laterally_linked(
            outer_layer_to_air,
            shell_side_to_outer_shell,
            tube_to_shell_side,
            bundle,
            tube_to_tube_side,
        )->Ok_0;
        let tube_fluid = self.tube_side_fluid_array_for_single_tube;
        let tube_wall = self.inner_pipe_shell_array_for_single_tube;
        let shell_fluid = self.shell_side_fluid_array;
        let outer_shell = self.outer_shell;
        let insulation = self.insulation_array;
        let ambient = Ok::<Seq<i64>, TuasLibError>(
            uniform(self.number_of_nodes, self.ambient_temperature),
        );
        let t_tf = node_temperature(tube_fluid, i);
        let t_tw = node_temperature(tube_wall, i);
        let t_sf = node_temperature(shell_fluid, i);
        let t_os = node_temperature(outer_shell, i);
        let t_amb = self.ambient_temperature as int;
        let n = self.number_of_tubes as int;
        lemma_lateral_link_at_node(
            tube_fluid,
            tube_to_tube_side,
            tube_wall.temperature_vector()->Ok_0,
            i,
        );
        lemma_linked_to_two_at_node(
            tube_wall,
            tube_to_tube_side,
            tube_fluid.temperature_vector(),
            tube_to_shell_side,
            shell_fluid.temperature_vector(),
            i,
        );
        lemma_linked_to_two_at_node(
            shell_fluid,
            bundle,
            tube_wall.temperature_vector(),
            shell_side_to_outer_shell,
            outer_shell.temperature_vector(),
            i,
        );
        let gain_tf = registered_heat_rate(after.tube_side_fluid_array_for_single_tube, i)
            - registered_heat_rate(tube_fluid, i);
        let gain_tw = registered_heat_rate(after.inner_pipe_shell_array_for_single_tube, i)
            - registered_heat_rate(tube_wall, i);
        let gain_sf = registered_heat_rate(after.shell_side_fluid_array, i) - registered_heat_rate(
            shell_fluid,
            i,
        );
        let gain_os = registered_heat_rate(after.outer_shell, i) - registered_heat_rate(
            outer_shell,
            i,
        );
        assert(gain_tf == tube_to_tube_side * (t_tw - t_tf));
        assert(gain_tw == tube_to_tube_side * (t_tf - t_tw) + tube_to_shell_side * (t_sf - t_tw));
        assert(gain_sf == bundle * (t_tw - t_sf) + shell_side_to_outer_shell * (t_os - t_sf));
        assert(bundle == tube_to_shell_side * n);
        assert(n * (tube_to_tube_side * (t_tw - t_tf) + (tube_to_tube_side * (t_tf - t_tw)
            + tube_to_shell_side * (t_sf - t_tw))) + tube_to_shell_side * n * (t_tw - t_sf) == 0)
            by (nonlinear_arith);
        assert(n * (gain_tf + gain_tw) + bundle * (t_tw - t_sf) == 0);
        if self.heat_exchanger_has_insulation {
            let shell_to_insulation = self.outer_shell_to_insulation_conductance()->Ok_0;
            let t_ins = node_temperature(insulation, i);
            lemma_linked_to_two_at_node(
                outer_shell,
                shell_side_to_outer_shell,
                shell_fluid.temperature_vector(),
                shell_to_insulation,
                insulation.temperature_vector(),
                i,
            );
            lemma_linked_to_two_at_node(
                insulation,
                shell_to_insulation,
                outer_shell.temperature_vector(),
                outer_layer_to_air,
                ambient,
                i,
            );
            let gain_ins = registered_heat_rate(after.insulation_array, i) - registered_heat_rate(
                insulation,
                i,
            );
            assert(gain_os == shell_side_to_outer_shell * (t_sf - t_os) + shell_to_insulation * (
            t_ins - t_os));
            assert(gain_ins == shell_to_insulation * (t_os - t_ins) + outer_layer_to_air * (t_amb
                - t_ins));
            assert(shell_side_to_outer_shell * (t_os - t_sf) + shell_side_to_outer_shell * (t_sf
                - t_os) + shell_to_insulation * (t_ins - t_os) + shell_to_insulation * (t_os
                - t_ins) == 0) by (nonlinear_arith);
        } else {
            lemma_linked_to_two_at_node(
                outer_shell,
                shell_side_to_outer_shell,
                shell_fluid.temperature_vector(),
                outer_layer_to_air,
                ambient,
                i,
            );
            assert(gain_os == shell_side_to_outer_shell * (t_sf - t_os) + outer_layer_to_air * (
            t_amb - t_os));
            assert(shell_side_to_outer_shell * (t_os - t_sf) + shell_side_to_outer_shell * (t_sf
                - t_os) == 0) by (nonlinear_arith);
        }
    }

    /// Energy conservation of the preparation of a step. The preparation
    /// links the shell side fluid to the walls of the tubes through the
    /// conductance of one tube times the number of tubes, and every other
    /// pair of layers through one conductance for both. So at every node
    /// the layers gain together, all tubes counted, what the ambient air
    /// hands the outermost layer: between the layers no heat is lost or
    /// made.
    pub proof fn lemma_connected_layers_exchange_heat_in_balance(
        self,
        tube_side_total_mass_flowrate: MassRate,
        shell_side_total_mass_flowrate: MassRate,
        nusselt: ShellAndTubeNusseltNumbers,
        i: int,
    )
        requires
            self.wf(),
            0 <= i < self.number_of_nodes,
            self.connected(tube_side_total_mass_flowrate, shell_side_total_mass_flowrate, nusselt)
                is Ok,
        ensures
            self.air_to_outer_layer_conductance(self.heat_transfer_to_ambient) is Ok,
            self.gain_of_layers(
                self.connected(
                    tube_side_total_mass_flowrate,
                    shell_side_total_mass_flowrate,
                    nusselt,
                )->Ok_0,
                i,
            ) == self.air_to_outer_layer_conductance(self.heat_transfer_to_ambient)->Ok_0 * (
            self.ambient_temperature - node_temperature(self.outer_layer(), i)),
    {
        let outer_layer_to_air = self.air_to_outer_layer_conductance(
            self.heat_transfer_to_ambient,
        )->Ok_0;
        let shell_side_to_outer_shell = self.shell_side_fluid_to_outer_shell_conductance(
            nusselt.shell_side_to_outer_shell,
        )->Ok_0;
        let tube_to_shell_side = self.shell_side_fluid_to_tube_conductance(
            nusselt.shell_side_to_tubes,
        )->Ok_0;
        let tube_to_tube_side = self.tube_side_fluid_to_tube_conductance(nusselt.tube_side)->Ok_0;
        let bundle = parallel_conductance(tube_to_shell_side, self.number_of_tubes)->Ok_0;
        let with_tube_flow = self.with_tube_side_total_mass_flowrate(
            tube_side_total_mass_flowrate,
        )->Ok_0;
        let flowing = with_tube_flow.with_shell_side_total_mass_flowrate(
            shell_side_total_mass_flowrate,
        )->Ok_0;
        let linked = flowing.laterally_linked(
            outer_layer_to_air,
            shell_side_to_outer_shell,
            tube_to_shell_side,
            bundle,
            tube_to_tube_side,
        )->Ok_0;
        let after = linked.with_zero_power_bc()->Ok_0;
        assert(flowing.wf());
        flowing.lemma_layers_exchange_heat_in_balance(
            outer_layer_to_air,
            shell_side_to_outer_shell,
            tube_to_shell_side,
            tube_to_tube_side,
            i,
        );
        assert(flowing.gain_of_layers(linked, i) == self.gain_of_layers(linked, i));
        assert(self.gain_of_layers(after, i) == self.gain_of_layers(linked, i));
        assert(node_temperature(flowing.outer_layer(), i) == node_temperature(
            self.outer_layer(),
            i,
        ));
    }

    /// The heat exchanger with the mass flow through each tube set to its
    /// share of the total on the tube side, rounded towards zero, so that a
    /// reversed total is a reversed flow through each tube.
    pub open spec fn with_tube_side_total_mass_flowrate(self, mass_flowrate: MassRate) -> Result<
        ShellAndTubeModel,
        TuasLibError,
    > {
        match quotient_towards_zero(mass_flowrate as int, self.number_of_tubes as int) {
            Ok(single) => match self.tube_side_fluid_array_for_single_tube.with_mass_flowrate(
                single,
            ) {
                Ok(tube_side_fluid_array_for_single_tube) => Ok(
                    ShellAndTubeModel { tube_side_fluid_array_for_single_tube, ..self },
                ),
                Err(e) => Err(e),
            },
            Err(e) => Err(e),
        }
    }

    /// The heat exchanger with the mass flow on the shell side set.
    pub open spec fn with_shell_side_total_mass_flowrate(self, mass_flowrate: MassRate) -> Result<
        ShellAndTubeModel,
        TuasLibError,
    > {
        match self.shell_side_fluid_array.with_mass_flowrate(mass_flowrate) {
            Ok(shell_side_fluid_array) => Ok(ShellAndTubeModel { shell_side_fluid_array, ..self }),
            Err(e) => Err(e),
        }
    }

    /// The length of one node: that of the shell side fluid array over the
    /// number of nodes.
    pub open spec fn node_length(self) -> Result<Length, TuasLibError> {
        match self.shell_side_fluid_array.fluid_array() {
            Ok(fluid) => nodal_share(fluid.component_length, self.number_of_nodes),
            Err(e) => Err(e),
        }
    }

    /// The outermost solid layer: the insulation if there is one, the outer
    /// shell if there is none.
    pub open spec fn outer_layer(self) -> EntityModel {
        if self.heat_exchanger_has_insulation {
            self.insulation_array
        } else {
            self.outer_shell
        }
    }

    /// The conductance of one node from the ambient air to the middle of the
    /// outermost solid layer.
    pub open spec fn air_to_outer_layer_conductance(self, heat_transfer_coeff: HeatTransfer) -> Result<
        ThermalConductance,
        TuasLibError,
    > {
        match self.node_length() {
            Ok(node_length) => match bulk_conductivity_of_solid(self.outer_layer()) {
                Ok(conductivity) => if self.heat_exchanger_has_insulation {
                    match representable(self.shell_side_od + 2 * self.insulation_thickness) {
                        Ok(od) => half_wall_and_film_conductance(
                            heat_transfer_coeff,
                            conductivity,
                            self.shape_factors.insulation_outer_half,
                            od,
                            node_length,
                        ),
                        Err(e) => Err(e),
                    }
                } else {
                    half_wall_and_film_conductance(
                        heat_transfer_coeff,
                        conductivity,
                        self.shape_factors.shell_outer_half,
                        self.shell_side_od,
                        node_length,
                    )
                },
                Err(e) => Err(e),
            },
            Err(e) => Err(e),
        }
    }

    /// What the Nusselt correlation of the tube side is evaluated on.
    pub open spec fn tube_side_nusselt_data(self, correct_prandtl_for_wall_temperatures: bool) -> Result<
        GnielinskiData,
        TuasLibError,
    > {
        match self.tube_side_fluid_array_for_single_tube.fluid_array() {
            Ok(fluid) => match self.inner_pipe_shell_array_for_single_tube.solid_column() {
                Ok(wall) => film_nusselt_data(
                    fluid,
                    self.tube_side_id,
                    fluid.cross_sectional_area,
                    wall.column.bulk_temperature(),
                    correct_prandtl_for_wall_temperatures,
                ),
                Err(e) => Err(e),
            },
            Err(e) => Err(e),
        }
    }

    /// What the Nusselt correlation of the shell side fluid on the tubes is
    /// evaluated on.
    pub open spec fn shell_side_to_tubes_nusselt_data(
        self,
        correct_prandtl_for_wall_temperatures: bool,
    ) -> Result<GnielinskiData, TuasLibError> {
        match self.shell_side_fluid_array.fluid_array() {
            Ok(fluid) => match self.inner_pipe_shell_array_for_single_tube.solid_column() {
                Ok(wall) => film_nusselt_data(
                    fluid,
                    fluid.hydraulic_diameter,
                    fluid.cross_sectional_area,
                    wall.column.bulk_temperature(),
                    correct_prandtl_for_wall_temperatures,
                ),
                Err(e) => Err(e),
            },
            Err(e) => Err(e),
        }
    }

    /// What the Nusselt correlation of the shell side fluid on the outer
    /// shell is evaluated on.
    pub open spec fn shell_side_to_outer_shell_nusselt_data(
        self,
        correct_prandtl_for_wall_temperatures: bool,
    ) -> Result<GnielinskiData, TuasLibError> {
        match self.shell_side_fluid_array.fluid_array() {
            Ok(fluid) => match self.outer_shell.solid_column() {
                Ok(wall) => film_nusselt_data(
                    fluid,
                    fluid.hydraulic_diameter,
                    fluid.cross_sectional_area,
                    wall.column.bulk_temperature(),
                    correct_prandtl_for_wall_temperatures,
                ),
                Err(e) => Err(e),
            },
            Err(e) => Err(e),
        }
    }

    /// The conductance of one node between the fluid of the array `fluid`
    /// and the middle of the wall `wall`, through a film of the Nusselt
    /// number `nusselt` on the surface of diameter `film_diameter` and the
    /// half of the wall with the shape factor per length `half_layer`. The
    /// node length is that of the array `fluid`.
    pub open spec fn fluid_to_wall_conductance(
        self,
        fluid: EntityModel,
        hydraulic_diameter_of_shell_side: bool,
        wall: EntityModel,
        nusselt: Ratio,
        half_layer: Ratio,
        film_diameter: Length,
    ) -> Result<ThermalConductance, TuasLibError> {
        match fluid.fluid_array() {
            Ok(array) => match bulk_conductivity_of_solid(wall) {
                Ok(wall_conductivity) => match array.column.material.thermal_conductivity_at(
                    array.column.bulk_temperature(),
                ) {
                    Ok(fluid_conductivity) => match nodal_share(
                        array.component_length,
                        self.number_of_nodes,
                    ) {
                        Ok(node_length) => film_to_wall_conductance(
                            nusselt,
                            fluid_conductivity,
                            if hydraulic_diameter_of_shell_side {
                                array.hydraulic_diameter
                            } else {
                                self.tube_side_id
                            },
                            wall_conductivity,
                            half_layer,
                            film_diameter,
                            node_length,
                        ),
                        Err(e) => Err(e),
                    },
                    Err(e) => Err(e),
                },
                Err(e) => Err(e),
            },
            Err(e) => Err(e),
        }
    }

    /// The conductance of one node between the tube side fluid and the
    /// middle of the wall of one tube.
    pub open spec fn tube_side_fluid_to_tube_conductance(self, nusselt: Ratio) -> Result<
        ThermalConductance,
        TuasLibError,
    > {
        self.fluid_to_wall_conductance(
            self.tube_side_fluid_array_for_single_tube,
            false,
            self.inner_pipe_shell_array_for_single_tube,
            nusselt,
            self.shape_factors.tube_inner_half,
            self.tube_side_id,
        )
    }

    /// The conductance of one node between the shell side fluid and the
    /// middle of the wall of one tube.
    pub open spec fn shell_side_fluid_to_tube_conductance(self, nusselt: Ratio) -> Result<
        ThermalConductance,
        TuasLibError,
    > {
        self.fluid_to_wall_conductance(
            self.shell_side_fluid_array,
            true,
            self.inner_pipe_shell_array_for_single_tube,
            nusselt,
            self.shape_factors.tube_outer_half,
            self.tube_side_od,
        )
    }

    /// The conductance of one node between the shell side fluid and the
    /// middle of the outer shell: the film on the inner surface of the
    /// outer shell in series with the inner half of the outer shell.
    pub open spec fn shell_side_fluid_to_outer_shell_conductance(self, nusselt: Ratio) -> Result<
        ThermalConductance,
        TuasLibError,
    > {
        self.fluid_to_wall_conductance(
            self.shell_side_fluid_array,
            true,
            self.outer_shell,
            nusselt,
            self.shape_factors.shell_inner_half,
            self.shell_side_id,
        )
    }

    /// The conductance of one node between the middle of the outer shell and
    /// the middle of the insulation: the outer half of the shell in series
    /// with the inner half of the insulation.
    pub open spec fn outer_shell_to_insulation_conductance(self) -> Result<
        ThermalConductance,
        TuasLibError,
    > {
        match self.insulation_array.solid_column() {
            Ok(_) => match self.outer_shell.solid_column() {
                Ok(shell) => match nodal_share(shell.component_length, self.number_of_nodes) {
                    Ok(node_length) => match bulk_conductivity_of_solid(self.outer_shell) {
                        Ok(shell_conductivity) => match bulk_conductivity_of_solid(
                            self.insulation_array,
                        ) {
                            Ok(insulation_conductivity) => match half_wall_conductance(
                                insulation_conductivity,
                                self.shape_factors.insulation_inner_half,
                                node_length,
                            ) {
                                Ok(insulation_layer) => match half_wall_conductance(
                                    shell_conductivity,
                                    self.shape_factors.shell_outer_half,
                                    node_length,
                                ) {
                                    Ok(shell_layer) => series_conductance(
                                        insulation_layer,
                                        shell_layer,
                                    ),
                                    Err(e) => Err(e),
                                },
                                Err(e) => Err(e),
                            },
                            Err(e) => Err(e),
                        },
                        Err(e) => Err(e),
                    },
                    Err(e) => Err(e),
                },
                Err(e) => Err(e),
            },
            Err(e) => Err(e),
        }
    }

    /// The heat exchanger with both ends of all its arrays adiabatic; the
    /// insulation only where there is one.
    pub open spec fn with_zero_power_bc(self) -> Result<ShellAndTubeModel, TuasLibError> {
        match with_adiabatic_ends(self.tube_side_fluid_array_for_single_tube) {
            Ok(tube_side_fluid_array_for_single_tube) => match with_adiabatic_ends(
                self.inner_pipe_shell_array_for_single_tube,
            ) {
                Ok(inner_pipe_shell_array_for_single_tube) => match with_adiabatic_ends(
                    self.shell_side_fluid_array,
                ) {
                    Ok(shell_side_fluid_array) => match with_adiabatic_ends(self.outer_shell) {
                        Ok(outer_shell) => if self.heat_exchanger_has_insulation {
                            match with_adiabatic_ends(self.insulation_array) {
                                Ok(insulation_array) => Ok(
                                    ShellAndTubeModel {
                                        tube_side_fluid_array_for_single_tube,
                                        inner_pipe_shell_array_for_single_tube,
                                        shell_side_fluid_array,
                                        outer_shell,
                                        insulation_array,
                                        ..self
                                    },
                                ),
                                Err(e) => Err(e),
                            }
                        } else {
                            Ok(
                                ShellAndTubeModel {
                                    tube_side_fluid_array_for_single_tube,
                                    inner_pipe_shell_array_for_single_tube,
                                    shell_side_fluid_array,
                                    outer_shell,
                                    ..self
                                },
                            )
                        },
                        Err(e) => Err(e),
                    },
                    Err(e) => Err(e),
                },
                Err(e) => Err(e),
            },
            Err(e) => Err(e),
        }
    }

    /// The heat exchanger after the lateral links of a step between its
    /// layers, for the conductances of one node given:
    ///
    /// - the tube side fluid and the wall of a tube through `tube_to_tube_side`;
    /// - the wall of a tube to the shell side fluid through `tube_to_shell_side`,
    ///   the shell side fluid to the walls of all tubes through `bundle_to_shell_side`;
    /// - the shell side fluid and the outer shell through `shell_side_to_outer_shell`;
    /// - with insulation, the outer shell and the insulation through the
    ///   conductance between them, and the insulation to the ambient air
    ///   through `outer_layer_to_air`;
    /// - without insulation, the outer shell to the ambient air through
    ///   `outer_layer_to_air`.
    pub open spec fn laterally_linked(
        self,
        outer_layer_to_air: ThermalConductance,
        shell_side_to_outer_shell: ThermalConductance,
        tube_to_shell_side: ThermalConductance,
        bundle_to_shell_side: ThermalConductance,
        tube_to_tube_side: ThermalConductance,
    ) -> Result<ShellAndTubeModel, TuasLibError> {
        let tube_fluid = self.tube_side_fluid_array_for_single_tube;
        let tube_wall = self.inner_pipe_shell_array_for_single_tube;
        let shell_fluid = self.shell_side_fluid_array;
        let outer_shell = self.outer_shell;
        let ambient = Ok::<Seq<i64>, TuasLibError>(
            uniform(self.number_of_nodes, self.ambient_temperature),
        );
        match tube_wall.temperature_vector() {
            Ok(tube_wall_temperatures) => match tube_fluid.with_lateral_temperatures(
                tube_to_tube_side,
                tube_wall_temperatures,
            ) {
                Ok(tube_side_fluid_array_for_single_tube) => match linked_to_two(
                    tube_wall,
                    tube_to_tube_side,
                    tube_fluid.temperature_vector(),
                    tube_to_shell_side,
                    shell_fluid.temperature_vector(),
                ) {
                    Ok(inner_pipe_shell_array_for_single_tube) => match linked_to_two(
                        shell_fluid,
                        bundle_to_shell_side,
                        tube_wall.temperature_vector(),
                        shell_side_to_outer_shell,
                        outer_shell.temperature_vector(),
                    ) {
                        Ok(shell_side_fluid_array) => if self.heat_exchanger_has_insulation {
                            match self.outer_shell_to_insulation_conductance() {
                                Ok(shell_to_insulation) => match linked_to_two(
                                    outer_shell,
                                    shell_side_to_outer_shell,
                                    shell_fluid.temperature_vector(),
                                    shell_to_insulation,
                                    self.insulation_array.temperature_vector(),
                                ) {
                                    Ok(outer_shell_linked) => match linked_to_two(
                                        self.insulation_array,
                                        shell_to_insulation,
                                        outer_shell.temperature_vector(),
                                        outer_layer_to_air,
                                        ambient,
                                    ) {
                                        Ok(insulation_array) => Ok(
                                            ShellAndTubeModel {
                                                tube_side_fluid_array_for_single_tube,
                                                inner_pipe_shell_array_for_single_tube,
                                                shell_side_fluid_array,
                                                outer_shell: outer_shell_linked,
                                                insulation_array,
                                                ..self
                                            },
                                        ),
                                        Err(e) => Err(e),
                                    },
                                    Err(e) => Err(e),
                                },
                                Err(e) => Err(e),
                            }
                        } else {
                            match linked_to_two(
                                outer_shell,
                                shell_side_to_outer_shell,
                                shell_fluid.temperature_vector(),
                                outer_layer_to_air,
                                ambient,
                            ) {
                                Ok(outer_shell_linked) => Ok(
                                    ShellAndTubeModel {
                                        tube_side_fluid_array_for_single_tube,
                                        inner_pipe_shell_array_for_single_tube,
                                        shell_side_fluid_array,
                                        outer_shell: outer_shell_linked,
                                        ..self
                                    },
                                ),
                                Err(e) => Err(e),
                            }
                        },
                        Err(e) => Err(e),
                    },
                    Err(e) => Err(e),
                },
                Err(e) => Err(e),
            },
            Err(e) => Err(e),
        }
    }

    /// The heat exchanger after the preparation of a step: the conductances
    /// between the layers computed from the present temperatures and the
    /// given Nusselt numbers, the mass flows set, the layers linked
    /// laterally, and both ends of every array adiabatic.
    pub open spec fn connected(
        self,
        tube_side_total_mass_flowrate: MassRate,
        shell_side_total_mass_flowrate: MassRate,
        nusselt: ShellAndTubeNusseltNumbers,
    ) -> Result<ShellAndTubeModel, TuasLibError> {
        match self.air_to_outer_layer_conductance(self.heat_transfer_to_ambient) {
            Ok(outer_layer_to_air) => match self.shell_side_fluid_to_outer_shell_conductance(
                nusselt.shell_side_to_outer_shell,
            ) {
                Ok(shell_side_to_outer_shell) => match self.shell_side_fluid_to_tube_conductance(
                    nusselt.shell_side_to_tubes,
                ) {
                    Ok(tube_to_shell_side) => match self.tube_side_fluid_to_tube_conductance(
                        nusselt.tube_side,
                    ) {
                        Ok(tube_to_tube_side) => match parallel_conductance(
                            tube_to_shell_side,
                            self.number_of_tubes,
                        ) {
                            Ok(bundle_to_shell_side) => match self.with_tube_side_total_mass_flowrate(
                                tube_side_total_mass_flowrate,
                            ) {
                                Ok(with_tube_flow) => match with_tube_flow.with_shell_side_total_mass_flowrate(
                                    shell_side_total_mass_flowrate,
                                ) {
                                    Ok(flowing) => match flowing.laterally_linked(
                                        outer_layer_to_air,
                                        shell_side_to_outer_shell,
                                        tube_to_shell_side,
                                        bundle_to_shell_side,
                                        tube_to_tube_side,
                                    ) {
                                        Ok(linked) => linked.with_zero_power_bc(),
                                        Err(e) => Err(e),
                                    },
                                    Err(e) => Err(e),
                                },
                                Err(e) => Err(e),
                            },
                            Err(e) => Err(e),
                        },
                        Err(e) => Err(e),
                    },
                    Err(e) => Err(e),
                },
                Err(e) => Err(e),
            },
            Err(e) => Err(e),
        }
    }

    /// The heat exchanger after a step of `timestep`: all its arrays
    /// advanced; the insulation only where there is one.
    pub open spec fn advanced(self, timestep: Time) -> Result<ShellAndTubeModel, TuasLibError> {
        match self.tube_side_fluid_array_for_single_tube.advanced(timestep) {
            Ok(tube_side_fluid_array_for_single_tube) => match self.inner_pipe_shell_array_for_single_tube.advanced(
                timestep,
            ) {
                Ok(inner_pipe_shell_array_for_single_tube) => match self.shell_side_fluid_array.advanced(
                    timestep,
                ) {
                    Ok(shell_side_fluid_array) => match self.outer_shell.advanced(timestep) {
                        Ok(outer_shell) => if self.heat_exchanger_has_insulation {
                            match self.insulation_array.advanced(timestep) {
                                Ok(insulation_array) => Ok(
                                    ShellAndTubeModel {
                                        tube_side_fluid_array_for_single_tube,
                                        inner_pipe_shell_array_for_single_tube,
                                        shell_side_fluid_array,
                                        outer_shell,
                                        insulation_array,
                                        ..self
                                    },
                                ),
                                Err(e) => Err(e),
                            }
                        } else {
                            Ok(
                                ShellAndTubeModel {
                                    tube_side_fluid_array_for_single_tube,
                                    inner_pipe_shell_array_for_single_tube,
                                    shell_side_fluid_array,
                                    outer_shell,
                                    ..self
                                },
                            )
                        },
                        Err(e) => Err(e),
                    },
                    Err(e) => Err(e),
                },
                Err(e) => Err(e),
            },
            Err(e) => Err(e),
        }
    }
}

/// A shell and tube heat exchanger: the fluid in one of a number of equal
/// tubes, the wall of that tube, the fluid on the shell side, the outer
/// shell and, optionally, insulation around it. All arrays have the same
/// number of nodes and exchange heat node by node.
#[derive(Clone, Debug, PartialEq)]
pub struct SimpleShellAndTubeHeatExchanger {
    /// The number of nodes of each array: the inner nodes and the two ends.
    pub number_of_nodes: usize,
    /// The number of equal tubes in parallel.
    pub number_of_tubes: u32,
    /// Whether there is insulation around the outer shell.
    pub heat_exchanger_has_insulation: bool,
    /// The fluid in one tube.
    pub tube_side_fluid_array_for_single_tube: HeatTransferEntity,
    /// The wall of one tube.
    pub inner_pipe_shell_array_for_single_tube: HeatTransferEntity,
    /// The fluid on the shell side.
    pub shell_side_fluid_array: HeatTransferEntity,
    /// The outer shell.
    pub outer_shell: HeatTransferEntity,
    /// The insulation around the outer shell, if there is any.
    pub insulation_array: HeatTransferEntity,
    /// The temperature of the ambient air.
    pub ambient_temperature: ThermodynamicTemperature,
    /// The heat transfer coefficient from the outermost layer to the
    /// ambient air.
    pub heat_transfer_to_ambient: HeatTransfer,
    /// The inner diameter of a tube.
    pub tube_side_id: Length,
    /// The outer diameter of a tube.
    pub tube_side_od: Length,
    /// The inner diameter of the outer shell.
    pub shell_side_id: Length,
    /// The outer diameter of the outer shell.
    pub shell_side_od: Length,
    /// The thickness of the insulation.
    pub insulation_thickness: Length,
    /// The shape factors per length of the half layers of the walls.
    pub shape_factors: HalfLayerShapeFactors,
}

impl View for SimpleShellAndTubeHeatExchanger {
    type V = ShellAndTubeModel;

    open spec fn view(&self) -> ShellAndTubeModel {
        ShellAndTubeModel {
            number_of_nodes: self.number_of_nodes as nat,
            number_of_tubes: self.number_of_tubes,
            heat_exchanger_has_insulation: self.heat_exchanger_has_insulation,
            tube_side_fluid_array_for_single_tube: self.tube_side_fluid_array_for_single_tube@,
            inner_pipe_shell_array_for_single_tube: self.inner_pipe_shell_array_for_single_tube@,
            shell_side_fluid_array: self.shell_side_fluid_array@,
            outer_shell: self.outer_shell@,
            insulation_array: self.insulation_array@,
            ambient_temperature: self.ambient_temperature,
            heat_transfer_to_ambient: self.heat_transfer_to_ambient,
            tube_side_id: self.tube_side_id,
            tube_side_od: self.tube_side_od,
            shell_side_id: self.shell_side_id,
            shell_side_od: self.shell_side_od,
            insulation_thickness: self.insulation_thickness,
            shape_factors: self.shape_factors,
        }
    }
}

/// The conductance of one node between the surroundings of a cylindrical
/// wall and its middle.
pub fn try_get_half_wall_and_film_conductance(
    heat_transfer_coeff: HeatTransfer,
    wall_conductivity: i64,
    half_layer: Ratio,
    film_diameter: Length,
    node_length: Length,
) -> (result: Result<ThermalConductance, TuasLibError>)
    ensures
        result == half_wall_and_film_conductance(
            heat_transfer_coeff,
            wall_conductivity,
            half_layer,
            film_diameter,
            node_length,
        ),
{
    let shape_factor: i64 = try_scale(node_length, half_layer)?;
    try_get_thermal_conductance_based_on_interaction(
        HeatTransferInteractionType::CylindricalConductionConvectionLiquidOutside(
            DataCylindricalConductionConvection {
                solid_conductivity: wall_conductivity,
                solid_shape_factor: shape_factor,
                heat_transfer_coeff,
                film_diameter,
                node_length,
            },
        ),
    )
}

/// The conductance of one node of the half of a cylindrical wall.
pub fn try_get_half_wall_conductance(
    wall_conductivity: i64,
    half_layer: Ratio,
    node_length: Length,
) -> (result: Result<ThermalConductance, TuasLibError>)
    ensures
        result == half_wall_conductance(wall_conductivity, half_layer, node_length),
{
    let shape_factor: i64 = try_scale(node_length, half_layer)?;
    try_get_layer_conductance(wall_conductivity, shape_factor)
}

/// What the Nusselt correlation of a film is evaluated on, but for the
/// friction factor, which is left at zero.
pub fn try_get_film_nusselt_data(
    fluid: &crate::array_control_vol::fluid_array::FluidArray,
    hydraulic_diameter: Length,
    flow_area: Area,
    wall_temperature: ThermodynamicTemperature,
    correct_prandtl_for_wall_temperatures: bool,
) -> (result: Result<GnielinskiData, TuasLibError>)
    ensures
        result == film_nusselt_data(
            fluid@,
            hydraulic_diameter,
            flow_area,
            wall_temperature as int,
            correct_prandtl_for_wall_temperatures,
        ),
{
    let fluid_material = fluid.material_control_volume();
    let fluid_temperature: i64 = fluid.column().bulk_temperature();
    let viscosity: i64 = fluid_material.try_get_dynamic_viscosity(fluid_temperature)?;
    let reynolds_number: i64 = try_get_reynolds_number(
        fluid.get_mass_flowrate(),
        hydraulic_diameter,
        flow_area,
        viscosity,
    )?;
    let reynolds_number_abs_for_nusselt: i64 = if reynolds_number >= 0 {
        reynolds_number
    } else {
        match 0i64.checked_sub(reynolds_number) {
            Some(size) => size,
            None => {
                return Err(TuasLibError::ValueNotRepresentable);
            },
        }
    };
    let bulk_prandtl_number: i64 = fluid_material.try_get_prandtl_liquid(
        fluid_temperature,
        ONE_ATMOSPHERE,
    )?;
    let length_to_diameter: i64 = try_get_ratio(
        fluid.get_component_length(),
        fluid.get_hydraulic_diameter(),
    )?;
    let mut wall_prandtl_number: i64 = bulk_prandtl_number;
    if correct_prandtl_for_wall_temperatures {
        // the properties of the fluid are not extrapolated: a wall beyond
        // the range of the fluid counts with the nearest temperature of the
        // range
        let mut wall_temperature_estimate: i64 = wall_temperature;
        if wall_temperature_estimate > fluid_material.max_temperature() {
            wall_temperature_estimate = fluid_material.max_temperature();
        } else if wall_temperature_estimate < fluid_material.min_temperature() {
            wall_temperature_estimate = fluid_material.min_temperature();
        }
        wall_prandtl_number =
        fluid_material.try_get_prandtl_liquid(wall_temperature_estimate, ONE_ATMOSPHERE)?;
    }
    Ok(
        GnielinskiData {
            reynolds: reynolds_number_abs_for_nusselt,
            prandtl_bulk: bulk_prandtl_number,
            prandtl_wall: wall_prandtl_number,
            darcy_friction_factor: 0,
            length_to_diameter,
        },
    )
}

impl SimpleShellAndTubeHeatExchanger {
    /// Sets the mass flow through each tube to its share of
    /// `mass_flowrate`, the total on the tube side.
    ///
    /// Fails with a value that is not representable where there are no
    /// tubes, and with a conversion error where the tube side fluid array is
    /// none. A failure changes nothing.
    pub fn set_tube_side_total_mass_flowrate(&mut self, mass_flowrate: MassRate) -> (result: Result<
        (),
        TuasLibError,
    >)
        ensures
            result == outcome(old(self)@.with_tube_side_total_mass_flowrate(mass_flowrate)),
            final(self)@ == state_after(
                old(self)@.with_tube_side_total_mass_flowrate(mass_flowrate),
                old(self)@,
            ),
            old(self)@.wf() ==> final(self)@.wf(),
    {
        let single_tube_mass_flowrate: i64 = div_towards_zero(
            mass_flowrate,
            self.number_of_tubes as i64,
        )?;
        self.tube_side_fluid_array_for_single_tube.set_mass_flowrate(single_tube_mass_flowrate)
    }

    /// Sets the mass flow on the shell side. Fails with a conversion error
    /// where the shell side fluid array is none, and changes nothing then.
    pub fn set_shell_side_total_mass_flowrate(&mut self, mass_flowrate: MassRate) -> (result:
        Result<(), TuasLibError>)
        ensures
            result == outcome(old(self)@.with_shell_side_total_mass_flowrate(mass_flowrate)),
            final(self)@ == state_after(
                old(self)@.with_shell_side_total_mass_flowrate(mass_flowrate),
                old(self)@,
            ),
            old(self)@.wf() ==> final(self)@.wf(),
    {
        self.shell_side_fluid_array.set_mass_flowrate(mass_flowrate)
    }

    /// The length of one node.
    fn node_length(&self) -> (result: Result<Length, TuasLibError>)
        ensures
            result == self@.node_length(),
    {
        let fluid = self.shell_side_fluid_array.as_fluid_array()?;
        try_get_nodal_share(fluid.get_component_length(), self.number_of_nodes)
    }

    /// The conductance of one node from the ambient air to the middle of the
    /// outermost solid layer: the insulation if there is one, the outer
    /// shell if there is none.
    ///
    /// Fails with a conversion error where an array is of another kind than
    /// it should be, with a range error where the conductivity of the layer
    /// is not defined at its bulk temperature, and with a value that is not
    /// representable where a number is.
    pub fn get_air_to_outer_sthe_layer_nodal_conductance(
        &mut self,
        h_air_to_pipe_surf: HeatTransfer,
    ) -> (result: Result<ThermalConductance, TuasLibError>)
        ensures
            final(self)@ == old(self)@,
            result == old(self)@.air_to_outer_layer_conductance(h_air_to_pipe_surf),
    {
        self.air_to_outer_layer_conductance(h_air_to_pipe_surf)
    }

    fn air_to_outer_layer_conductance(&self, h_air_to_pipe_surf: HeatTransfer) -> (result: Result<
        ThermalConductance,
        TuasLibError,
    >)
        ensures
            result == self@.air_to_outer_layer_conductance(h_air_to_pipe_surf),
    {
        let node_length: i64 = self.node_length()?;
        if self.heat_exchanger_has_insulation {
            let conductivity: i64 = try_get_bulk_conductivity_of_solid(&self.insulation_array)?;
            let od: i64 = crate::fixed_point::narrow(
                self.shell_side_od as i128 + 2 * (self.insulation_thickness as i128),
            )?;
            try_get_half_wall_and_film_conductance(
                h_air_to_pipe_surf,
                conductivity,
                self.shape_factors.insulation_outer_half,
                od,
                node_length,
            )
        } else {
            let conductivity: i64 = try_get_bulk_conductivity_of_solid(&self.outer_shell)?;
            try_get_half_wall_and_film_conductance(
                h_air_to_pipe_surf,
                conductivity,
                self.shape_factors.shell_outer_half,
                self.shell_side_od,
                node_length,
            )
        }
    }

    /// What the Nusselt correlation of the tube side is evaluated on, but
    /// for the friction factor, which is left at zero. With wall correction
    /// the Prandtl number at the wall is taken at the bulk temperature of
    /// the tube wall, moved into the range of the fluid.
    pub fn get_tube_side_nusselt_data(&self, correct_prandtl_for_wall_temperatures: bool) -> (result:
        Result<GnielinskiData, TuasLibError>)
        ensures
            result == self@.tube_side_nusselt_data(correct_prandtl_for_wall_temperatures),
    {
        let fluid = self.tube_side_fluid_array_for_single_tube.as_fluid_array()?;
        let wall = self.inner_pipe_shell_array_for_single_tube.as_solid_column()?;
        try_get_film_nusselt_data(
            fluid,
            self.tube_side_id,
            fluid.get_cross_sectional_area(),
            wall.column().bulk_temperature(),
            correct_prandtl_for_wall_temperatures,
        )
    }

    /// What the Nusselt correlation of the shell side fluid on the tubes is
    /// evaluated on, but for the friction factor.
    pub fn get_shell_side_to_tubes_nusselt_data(
        &self,
        correct_prandtl_for_wall_temperatures: bool,
    ) -> (result: Result<GnielinskiData, TuasLibError>)
        ensures
            result == self@.shell_side_to_tubes_nusselt_data(correct_prandtl_for_wall_temperatures),
    {
        let fluid = self.shell_side_fluid_array.as_fluid_array()?;
        let wall = self.inner_pipe_shell_array_for_single_tube.as_solid_column()?;
        try_get_film_nusselt_data(
            fluid,
            fluid.get_hydraulic_diameter(),
            fluid.get_cross_sectional_area(),
            wall.column().bulk_temperature(),
            correct_prandtl_for_wall_temperatures,
        )
    }

    /// What the Nusselt correlation of the shell side fluid on the outer
    /// shell is evaluated on, but for the friction factor.
    pub fn get_shell_side_to_outer_shell_nusselt_data(
        &self,
        correct_prandtl_for_wall_temperatures: bool,
    ) -> (result: Result<GnielinskiData, TuasLibError>)
        ensures
            result == self@.shell_side_to_outer_shell_nusselt_data(
                correct_prandtl_for_wall_temperatures,
            ),
    {
        let fluid = self.shell_side_fluid_array.as_fluid_array()?;
        let wall = self.outer_shell.as_solid_column()?;
        try_get_film_nusselt_data(
            fluid,
            fluid.get_hydraulic_diameter(),
            fluid.get_cross_sectional_area(),
            wall.column().bulk_temperature(),
            correct_prandtl_for_wall_temperatures,
        )
    }

    fn fluid_to_wall_conductance(
        &self,
        fluid: &HeatTransferEntity,
        hydraulic_diameter_of_shell_side: bool,
        wall: &HeatTransferEntity,
        nusselt: Ratio,
        half_layer: Ratio,
        film_diameter: Length,
    ) -> (result: Result<ThermalConductance, TuasLibError>)
        ensures
            result == self@.fluid_to_wall_conductance(
                fluid@,
                hydraulic_diameter_of_shell_side,
                wall@,
                nusselt,
                half_layer,
                film_diameter,
            ),
    {
        let array = fluid.as_fluid_array()?;
        let wall_conductivity: i64 = try_get_bulk_conductivity_of_solid(wall)?;
        let fluid_temperature: i64 = array.column().bulk_temperature();
        let k_fluid_average: i64 = array.material_control_volume().try_get_thermal_conductivity(
            fluid_temperature,
        )?;
        let node_length: i64 = try_get_nodal_share(
            array.get_component_length(),
            self.number_of_nodes,
        )?;
        let hydraulic_diameter: i64 = if hydraulic_diameter_of_shell_side {
            array.get_hydraulic_diameter()
        } else {
            self.tube_side_id
        };
        let h_to_fluid: i64 = try_get_heat_transfer_coefficient(
            nusselt,
            k_fluid_average,
            hydraulic_diameter,
        )?;
        try_get_half_wall_and_film_conductance(
            h_to_fluid,
            wall_conductivity,
            half_layer,
            film_diameter,
            node_length,
        )
    }

    /// The conductance of one node between the tube side fluid and the
    /// middle of the wall of one tube, for the Nusselt number
    /// `nusselt_estimate_tube_side` of the fluid on the wall.
    ///
    /// Fails with a conversion error where an array is of another kind than
    /// it should be, with a range error where a conductivity is not defined
    /// at the bulk temperature of its array, and with a value that is not
    /// representable where a number is.
    pub fn get_single_tube_side_fluid_array_node_to_inner_pipe_shell_nodal_conductance(
        &mut self,
        nusselt_estimate_tube_side: Ratio,
    ) -> (result: Result<ThermalConductance, TuasLibError>)
        ensures
            final(self)@ == old(self)@,
            result == old(self)@.tube_side_fluid_to_tube_conductance(nusselt_estimate_tube_side),
    {
        self.fluid_to_wall_conductance(
            &self.tube_side_fluid_array_for_single_tube,
            false,
            &self.inner_pipe_shell_array_for_single_tube,
            nusselt_estimate_tube_side,
            self.shape_factors.tube_inner_half,
            self.tube_side_id,
        )
    }

    /// The conductance of one node between the shell side fluid and the
    /// middle of the wall of one tube, for the Nusselt number
    /// `nusselt_estimate_shell` of the fluid on the wall. The conductance to
    /// all tubes is this one times the number of tubes.
    ///
    /// Fails as the conductance on the tube side does.
    pub fn get_shell_side_fluid_to_single_inner_pipe_shell_nodal_conductance(
        &mut self,
        nusselt_estimate_shell: Ratio,
    ) -> (result: Result<ThermalConductance, TuasLibError>)
        ensures
            final(self)@ == old(self)@,
            result == old(self)@.shell_side_fluid_to_tube_conductance(nusselt_estimate_shell),
    {
        self.fluid_to_wall_conductance(
            &self.shell_side_fluid_array,
            true,
            &self.inner_pipe_shell_array_for_single_tube,
            nusselt_estimate_shell,
            self.shape_factors.tube_outer_half,
            self.tube_side_od,
        )
    }

    /// The conductance of one node between the shell side fluid and the
    /// middle of the outer shell, for the Nusselt number `nusselt_estimate`
    /// of the fluid on the outer shell: the film on the inner surface of
    /// the outer shell in series with the inner half of the outer shell.
    ///
    /// Fails as the conductance on the tube side does.
    pub fn get_shell_side_fluid_to_outer_pipe_shell_nodal_conductance(
        &mut self,
        nusselt_estimate: Ratio,
    ) -> (result: Result<ThermalConductance, TuasLibError>)
        ensures
            final(self)@ == old(self)@,
            result == old(self)@.shell_side_fluid_to_outer_shell_conductance(nusselt_estimate),
    {
        self.fluid_to_wall_conductance(
            &self.shell_side_fluid_array,
            true,
            &self.outer_shell,
            nusselt_estimate,
            self.shape_factors.shell_inner_half,
            self.shell_side_id,
        )
    }

    /// The conductance of one node between the middle of the outer shell and
    /// the middle of the insulation.
    ///
    /// Fails with a conversion error where the insulation or the outer shell
    /// is no solid column, with a range error where a conductivity is not
    /// defined at the bulk temperature of its array, and with a value that
    /// is not representable where a number is.
    pub fn get_outer_pipe_shell_to_insulation_conductance(&self) -> (result: Result<
        ThermalConductance,
        TuasLibError,
    >)
        ensures
            result == self@.outer_shell_to_insulation_conductance(),
    {
        let _insulation = self.insulation_array.as_solid_column()?;
        let pipe_shell = self.outer_shell.as_solid_column()?;
        let node_length: i64 = try_get_nodal_share(
            pipe_shell.get_component_length(),
            self.number_of_nodes,
        )?;
        let solid_pipe_material_conductivity: i64 = try_get_bulk_conductivity_of_solid(
            &self.outer_shell,
        )?;
        let insulation_material_conductivity: i64 = try_get_bulk_conductivity_of_solid(
            &self.insulation_array,
        )?;
        let insulation_material_layer_conductance: i64 = try_get_half_wall_conductance(
            insulation_material_conductivity,
            self.shape_factors.insulation_inner_half,
            node_length,
        )?;
        let solid_pipe_material_layer_conductance: i64 = try_get_half_wall_conductance(
            solid_pipe_material_conductivity,
            self.shape_factors.shell_outer_half,
            node_length,
        )?;
        try_get_series_conductance(
            insulation_material_layer_conductance,
            solid_pipe_material_layer_conductance,
        )
    }

    /// Sets the thickness of the insulation, and with it the shape factors
    /// per length of its two halves: `2 pi / ln((od + t) / od)` for the
    /// inner and `2 pi / ln((od + 2 t) / (od + t))` for the outer half, with
    /// `od` the outer diameter of the outer shell and `t` the thickness. The
    /// heat loss changes with the thickness, the thermal inertia does not.
    pub fn calibrate_insulation_thickness(
        &mut self,
        insulation_thickness: Length,
        insulation_inner_half: Ratio,
        insulation_outer_half: Ratio,
    )
        ensures
            final(self)@ == (ShellAndTubeModel {
                insulation_thickness,
                shape_factors: HalfLayerShapeFactors {
                    insulation_inner_half,
                    insulation_outer_half,
                    ..old(self)@.shape_factors
                },
                ..old(self)@
            }),
            old(self)@.wf() ==> final(self)@.wf(),
    {
        self.insulation_thickness = insulation_thickness;
        self.shape_factors.insulation_inner_half = insulation_inner_half;
        self.shape_factors.insulation_outer_half = insulation_outer_half;
    }

    /// The thickness of the insulation.
    pub fn get_insulation_thickness(&self) -> (thickness: Length)
        ensures
            thickness == self@.insulation_thickness,
    {
        self.insulation_thickness
    }

    /// A copy of the heat exchanger.
    pub fn duplicate(&self) -> (copy: SimpleShellAndTubeHeatExchanger)
        ensures
            copy@ == self@,
    {
        SimpleShellAndTubeHeatExchanger {
            number_of_nodes: self.number_of_nodes,
            number_of_tubes: self.number_of_tubes,
            heat_exchanger_has_insulation: self.heat_exchanger_has_insulation,
            tube_side_fluid_array_for_single_tube: self.tube_side_fluid_array_for_single_tube.duplicate(),
            inner_pipe_shell_array_for_single_tube: self.inner_pipe_shell_array_for_single_tube.duplicate(),
            shell_side_fluid_array: self.shell_side_fluid_array.duplicate(),
            outer_shell: self.outer_shell.duplicate(),
            insulation_array: self.insulation_array.duplicate(),
            ambient_temperature: self.ambient_temperature,
            heat_transfer_to_ambient: self.heat_transfer_to_ambient,
            tube_side_id: self.tube_side_id,
            tube_side_od: self.tube_side_od,
            shell_side_id: self.shell_side_id,
            shell_side_od: self.shell_side_od,
            insulation_thickness: self.insulation_thickness,
            shape_factors: self.shape_factors,
        }
    }

    /// Links both ends of every array of the heat exchanger to the boundary
    /// through which no heat passes; the insulation only where there is
    /// one. Another link may be made to any end afterwards, and then counts
    /// in its place.
    ///
    /// Fails with a conversion error where one of the arrays is a boundary
    /// condition. A failure changes nothing.
    pub fn zero_power_bc_axial_connection(&mut self) -> (result: Result<(), TuasLibError>)
        ensures
            result == outcome(old(self)@.with_zero_power_bc()),
            final(self)@ == state_after(old(self)@.with_zero_power_bc(), old(self)@),
            old(self)@.wf() ==> final(self)@.wf(),
    {
        let mut tube_fluid = self.tube_side_fluid_array_for_single_tube.duplicate();
        link_adiabatic_ends(&mut tube_fluid)?;
        let mut tube_wall = self.inner_pipe_shell_array_for_single_tube.duplicate();
        link_adiabatic_ends(&mut tube_wall)?;
        let mut shell_fluid = self.shell_side_fluid_array.duplicate();
        link_adiabatic_ends(&mut shell_fluid)?;
        let mut outer_shell = self.outer_shell.duplicate();
        link_adiabatic_ends(&mut outer_shell)?;
        if self.heat_exchanger_has_insulation {
            let mut insulation = self.insulation_array.duplicate();
            link_adiabatic_ends(&mut insulation)?;
            self.insulation_array = insulation;
        }
        self.tube_side_fluid_array_for_single_tube = tube_fluid;
        self.inner_pipe_shell_array_for_single_tube = tube_wall;
        self.shell_side_fluid_array = shell_fluid;
        self.outer_shell = outer_shell;
        Ok(())
    }

    /// Links the layers of the heat exchanger laterally for one step, with
    /// the conductances of one node given: the tube side fluid and the wall
    /// of a tube, the wall of a tube and the shell side fluid, the shell
    /// side fluid and the outer shell and, with insulation, the outer shell
    /// and the insulation and the insulation and the ambient air. Without
    /// insulation the outer shell is linked to the ambient air through
    /// `outer_layer_to_air`, and the insulation takes no part.
    ///
    /// Fails with the error of the first link that fails. A failure changes
    /// nothing.
    pub fn link_layers_laterally(
        &mut self,
        outer_layer_to_air: ThermalConductance,
        shell_side_to_outer_shell: ThermalConductance,
        tube_to_shell_side: ThermalConductance,
        bundle_to_shell_side: ThermalConductance,
        tube_to_tube_side: ThermalConductance,
    ) -> (result: Result<(), TuasLibError>)
        ensures
            result == outcome(
                old(self)@.laterally_linked(
                    outer_layer_to_air,
                    shell_side_to_outer_shell,
                    tube_to_shell_side,
                    bundle_to_shell_side,
                    tube_to_tube_side,
                ),
            ),
            final(self)@ == state_after(
                old(self)@.laterally_linked(
                    outer_layer_to_air,
                    shell_side_to_outer_shell,
                    tube_to_shell_side,
                    bundle_to_shell_side,
                    tube_to_tube_side,
                ),
                old(self)@,
            ),
            old(self)@.wf() ==> final(self)@.wf(),
    {
        let ambient_temperature_vector: Vec<i64> = filled(
            self.number_of_nodes,
            self.ambient_temperature,
        );

        // the tube side fluid
        let tube_wall_temperatures: Vec<i64> = try_get_temperatures(
            &self.inner_pipe_shell_array_for_single_tube,
        )?;
        let mut tube_fluid = self.tube_side_fluid_array_for_single_tube.duplicate();
        tube_fluid.lateral_link_new_temperature_vector_avg_conductance(
            tube_to_tube_side,
            tube_wall_temperatures,
        )?;

        // the wall of a tube
        let tube_fluid_temperatures: Vec<i64> = try_get_temperatures(
            &self.tube_side_fluid_array_for_single_tube,
        )?;
        let shell_fluid_temperatures: Vec<i64> = try_get_temperatures(&self.shell_side_fluid_array)?;
        let mut tube_wall = self.inner_pipe_shell_array_for_single_tube.duplicate();
        tube_wall.lateral_link_new_temperature_vector_avg_conductance(
            tube_to_tube_side,
            tube_fluid_temperatures,
        )?;
        tube_wall.lateral_link_new_temperature_vector_avg_conductance(
            tube_to_shell_side,
            shell_fluid_temperatures,
        )?;

        // the shell side fluid
        let tube_wall_temperatures: Vec<i64> = try_get_temperatures(
            &self.inner_pipe_shell_array_for_single_tube,
        )?;
        let outer_shell_temperatures: Vec<i64> = try_get_temperatures(&self.outer_shell)?;
        let mut shell_fluid = self.shell_side_fluid_array.duplicate();
        shell_fluid.lateral_link_new_temperature_vector_avg_conductance(
            bundle_to_shell_side,
            tube_wall_temperatures,
        )?;
        shell_fluid.lateral_link_new_temperature_vector_avg_conductance(
            shell_side_to_outer_shell,
            outer_shell_temperatures,
        )?;

        let mut outer_shell = self.outer_shell.duplicate();
        if self.heat_exchanger_has_insulation {
            let insulation_to_outer_shell_conductance: i64 =
                self.get_outer_pipe_shell_to_insulation_conductance()?;

            // the outer shell
            let shell_fluid_temperatures: Vec<i64> = try_get_temperatures(
                &self.shell_side_fluid_array,
            )?;
            let insulation_temperatures: Vec<i64> = try_get_temperatures(&self.insulation_array)?;
            outer_shell.lateral_link_new_temperature_vector_avg_conductance(
                shell_side_to_outer_shell,
                shell_fluid_temperatures,
            )?;
            outer_shell.lateral_link_new_temperature_vector_avg_conductance(
                insulation_to_outer_shell_conductance,
                insulation_temperatures,
            )?;

            // the insulation
            let outer_shell_temperatures: Vec<i64> = try_get_temperatures(&self.outer_shell)?;
            let mut insulation = self.insulation_array.duplicate();
            insulation.lateral_link_new_temperature_vector_avg_conductance(
                insulation_to_outer_shell_conductance,
                outer_shell_temperatures,
            )?;
            insulation.lateral_link_new_temperature_vector_avg_conductance(
                outer_layer_to_air,
                ambient_temperature_vector,
            )?;
            self.insulation_array = insulation;
        } else {
            // the outer shell
            let shell_fluid_temperatures: Vec<i64> = try_get_temperatures(
                &self.shell_side_fluid_array,
            )?;
            outer_shell.lateral_link_new_temperature_vector_avg_conductance(
                shell_side_to_outer_shell,
                shell_fluid_temperatures,
            )?;
            outer_shell.lateral_link_new_temperature_vector_avg_conductance(
                outer_layer_to_air,
                ambient_temperature_vector,
            )?;
        }
        self.tube_side_fluid_array_for_single_tube = tube_fluid;
        self.inner_pipe_shell_array_for_single_tube = tube_wall;
        self.shell_side_fluid_array = shell_fluid;
        self.outer_shell = outer_shell;
        Ok(())
    }

    /// Prepares one step of the heat exchanger: computes the conductances
    /// between the layers from the present temperatures and the given
    /// Nusselt numbers, sets the mass flows on both sides, links the layers
    /// laterally, and leaves both ends of every array adiabatic. The Nusselt
    /// numbers are those of the three films, each for the data that the
    /// function for its film gives.
    ///
    /// With flows in opposite directions on the two sides the heat exchanger
    /// works in counter-current, else in co-current.
    ///
    /// Adiabatic ends are the default. Where the heat exchanger stands in a
    /// loop, the ends of its fluids are linked to their neighbours after
    /// this call and before the step, so that the flows have where to come
    /// from and where to go.
    ///
    /// Fails with the error of the first conductance, flow or link that
    /// fails. A failure changes nothing.
    pub fn lateral_and_miscellaneous_connections(
        &mut self,
        tube_side_total_mass_flowrate: MassRate,
        shell_side_total_mass_flowrate: MassRate,
        nusselt: ShellAndTubeNusseltNumbers,
    ) -> (result: Result<(), TuasLibError>)
        ensures
            result == outcome(
                old(self)@.connected(
                    tube_side_total_mass_flowrate,
                    shell_side_total_mass_flowrate,
                    nusselt,
                ),
            ),
            final(self)@ == state_after(
                old(self)@.connected(
                    tube_side_total_mass_flowrate,
                    shell_side_total_mass_flowrate,
                    nusselt,
                ),
                old(self)@,
            ),
            old(self)@.wf() ==> final(self)@.wf(),
    {
        let heat_transfer_to_ambient: i64 = self.heat_transfer_to_ambient;
        let outer_node_layer_to_air_conductance: i64 = self.air_to_outer_layer_conductance(
            heat_transfer_to_ambient,
        )?;
        let outer_shell_to_shell_side_fluid_conductance: i64 = self.fluid_to_wall_conductance(
            &self.shell_side_fluid_array,
            true,
            &self.outer_shell,
            nusselt.shell_side_to_outer_shell,
            self.shape_factors.shell_inner_half,
            self.shell_side_id,
        )?;
        let single_tube_to_shell_side_fluid_conductance: i64 = self.fluid_to_wall_conductance(
            &self.shell_side_fluid_array,
            true,
            &self.inner_pipe_shell_array_for_single_tube,
            nusselt.shell_side_to_tubes,
            self.shape_factors.tube_outer_half,
            self.tube_side_od,
        )?;
        let single_tube_to_tube_side_fluid_conductance: i64 = self.fluid_to_wall_conductance(
            &self.tube_side_fluid_array_for_single_tube,
            false,
            &self.inner_pipe_shell_array_for_single_tube,
            nusselt.tube_side,
            self.shape_factors.tube_inner_half,
            self.tube_side_id,
        )?;
        let tube_bundle_to_shell_side_fluid_conductance: i64 = try_get_parallel_conductance(
            single_tube_to_shell_side_fluid_conductance,
            self.number_of_tubes,
        )?;
        let mut working_copy = self.duplicate();
        working_copy.set_tube_side_total_mass_flowrate(tube_side_total_mass_flowrate)?;
        working_copy.set_shell_side_total_mass_flowrate(shell_side_total_mass_flowrate)?;
        working_copy.link_layers_laterally(
            outer_node_layer_to_air_conductance,
            outer_shell_to_shell_side_fluid_conductance,
            single_tube_to_shell_side_fluid_conductance,
            tube_bundle_to_shell_side_fluid_conductance,
            single_tube_to_tube_side_fluid_conductance,
        )?;
        working_copy.zero_power_bc_axial_connection()?;
        *self = working_copy;
        Ok(())
    }

    /// Advances every array of the heat exchanger by `timestep` and consumes
    /// the links; the insulation only where there is one. Fails with a range
    /// error where the material of an array is not defined at the new
    /// specific enthalpy of a node. A failure changes nothing.
    pub fn advance_timestep(&mut self, timestep: Time) -> (result: Result<(), TuasLibError>)
        ensures
            result == outcome(old(self)@.advanced(timestep)),
            final(self)@ == state_after(old(self)@.advanced(timestep), old(self)@),
            old(self)@.wf() ==> final(self)@.wf(),
    {
        let mut tube_fluid = self.tube_side_fluid_array_for_single_tube.duplicate();
        tube_fluid.advance_timestep(timestep)?;
        let mut tube_wall = self.inner_pipe_shell_array_for_single_tube.duplicate();
        tube_wall.advance_timestep(timestep)?;
        let mut shell_fluid = self.shell_side_fluid_array.duplicate();
        shell_fluid.advance_timestep(timestep)?;
        let mut outer_shell = self.outer_shell.duplicate();
        outer_shell.advance_timestep(timestep)?;
        if self.heat_exchanger_has_insulation {
            let mut insulation = self.insulation_array.duplicate();
            insulation.advance_timestep(timestep)?;
            self.insulation_array = insulation;
        }
        self.tube_side_fluid_array_for_single_tube = tube_fluid;
        self.inner_pipe_shell_array_for_single_tube = tube_wall;
        self.shell_side_fluid_array = shell_fluid;
        self.outer_shell = outer_shell;
        Ok(())
    }
}

} // verus!
