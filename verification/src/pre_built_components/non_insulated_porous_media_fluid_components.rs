use vstd::prelude::*;
use crate::array_control_vol::column::{outcome, state_after};
use crate::array_control_vol::fluid_array::{FluidArray, FluidArrayModel};
use crate::array_control_vol::solid_column::{SolidColumn, SolidColumnModel};
use crate::boussinesq_thermophysical_properties::material::{Material, MaterialModel};
use crate::heat_transfer_correlations::darcy_loss_correlations::DimensionlessDarcyLossCorrelations;
use crate::heat_transfer_correlations::nusselt_number_correlations::{
    NusseltCorrelation, NusseltPrandtlReynoldsData, WakaoData,
};
use crate::heat_transfer_correlations::thermal_resistance::{
    cylinder_lateral_area, try_get_cylinder_lateral_area,
};
use crate::pre_built_components::heat_transfer_entities::{
    CVType, EntityModel, HeatTransferEntity,
};
use crate::tuas_lib_error::TuasLibError;
use crate::units::{
    Area, HeatTransfer, Length, Ratio, SurfaceRoughness, ThermodynamicTemperature, Time,
    ONE_ATMOSPHERE,
};

verus! {

/// The flow area of the heater, 0.00105 square metre.
pub const HEATER_V2_FLOW_AREA: Area = 1_050_000_000;

/// The heated length of the heater, 1.6383 metre.
pub const HEATER_V2_HEATED_LENGTH: Length = 1_638_300;

/// The hydraulic diameter of the heater, 0.01467 metre.
pub const HEATER_V2_HYDRAULIC_DIAMETER: Length = 14_670;

/// The inner diameter of the steel shell of the heater, 0.0381 metre.
pub const HEATER_V2_SHELL_INNER_DIAMETER: Length = 38_100;

/// The outer diameter of the steel shell of the heater, 0.04 metre.
pub const HEATER_V2_SHELL_OUTER_DIAMETER: Length = 40_000;

/// The form loss of the heater taken as a pipe, 0.1.
pub const HEATER_V2_PIPE_FORM_LOSS: Ratio = 100_000;

/// The shape factor of the outer half of the steel shell over the heated
/// length, `2 pi L / ln(d_outer / d_mid)`, to the nearest micrometre.
pub const HEATER_V2_LENGTHSCALE_PIPE_TO_AMBIENT: Length = 428_253_246;

/// The shape factor of the inner half of the steel shell over the heated
/// length, `2 pi L / ln(d_mid / d_inner)`, to the nearest micrometre.
pub const HEATER_V2_LENGTHSCALE_PIPE_TO_FLUID: Length = 417_958_996;

/// The shape factor of the solid inside the flow: so large that the solid
/// offers no resistance of its own.
pub const HEATER_V2_LENGTHSCALE_FLUID_TO_INTERIOR: Length = 1_000_000_000_000_000;

/// The width of the twisted tape inside the heater, one inch.
pub const HEATER_V2_TWISTED_TAPE_WIDTH: Length = 25_400;

/// The thickness of the twisted tape inside the heater, 0.048 inch, to the
/// nearest micrometre.
pub const HEATER_V2_TWISTED_TAPE_THICKNESS: Length = 1_219;

/// The surface of the twisted tape over the heater with its two heads, 719
/// square inch.
pub const HEATER_V2_INTERIOR_AREA_WITH_HEADS: Area = 463_870_040_000;

/// The share of the surface of the twisted tape that lies within the heated
/// length: 719 square inch times 1.6383 metre over 78 inch, to the nearest
/// square micrometre.
pub const HEATER_V2_INTERIOR_AREA_HEATED_LENGTH: Area = 383_584_840_769;

/// The heat transfer coefficient to ambient air that matches measured heat
/// losses of the heater, 20 watt per square metre and kelvin.
pub const HEATER_V2_CALIBRATED_HEAT_TRANSFER_TO_AMBIENT: HeatTransfer = 20_000_000;

/// The heat transfer coefficient to ambient air by natural convection
/// alone, 6 watt per square metre and kelvin.
pub const HEATER_V2_NATURAL_CONVECTION_HEAT_TRANSFER_TO_AMBIENT: HeatTransfer = 6_000_000;

/// What a fluid component with a porous interior and no insulation is to
/// this library.
pub struct NonInsulatedPorousMediaModel {
    pub inner_nodes: nat,
    pub interior_solid_array_for_porous_media: EntityModel,
    pub pipe_shell: EntityModel,
    pub pipe_fluid_array: EntityModel,
    pub ambient_temperature: ThermodynamicTemperature,
    pub heat_transfer_to_ambient: HeatTransfer,
    pub flow_area: Area,
    pub darcy_loss_correlation: DimensionlessDarcyLossCorrelations,
    pub solid_side_thermal_conductance_lengthscale_pipe_to_ambient: Length,
    pub solid_side_thermal_conductance_lengthscale_pipe_to_fluid: Length,
    pub solid_side_thermal_conductance_lengthscale_fluid_to_porous_media_internal: Length,
    pub nusselt_correlation_to_pipe_shell: NusseltCorrelation,
    pub nusselt_correlation_lengthscale_to_ambient: Length,
    pub convection_heat_transfer_area_to_ambient: Area,
    pub nusselt_correlation_to_porous_media_interior: NusseltCorrelation,
    pub nusselt_correlation_lengthscale_to_porous_media_interior: Length,
    pub convection_heat_transfer_area_to_pipe: Area,
    pub convection_heat_transfer_area_to_interior: Area,
}

impl NonInsulatedPorousMediaModel {
    /// The bare heater of the CIET facility, version 2, all of it at
    /// `initial_temperature`: the fluid in the heated section, the steel
    /// shell around it and the twisted tape inside it, each of
    /// `inner_nodes + 2` nodes, with the dimensions of the heater.
    pub open spec fn ciet_heater_v2(
        initial_temperature: ThermodynamicTemperature,
        ambient_temperature: ThermodynamicTemperature,
        inner_nodes: nat,
        heat_transfer_to_ambient: HeatTransfer,
        darcy_loss_correlation: DimensionlessDarcyLossCorrelations,
        convection_heat_transfer_area_to_interior: Area,
        fluid: MaterialModel,
        steel: MaterialModel,
    ) -> Result<NonInsulatedPorousMediaModel, TuasLibError> {
        match FluidArrayModel::initial(
            HEATER_V2_HEATED_LENGTH,
            HEATER_V2_HYDRAULIC_DIAMETER,
            HEATER_V2_FLOW_AREA,
            initial_temperature,
            ONE_ATMOSPHERE,
            fluid,
            inner_nodes,
        ) {
            Ok(fluid_array) => match SolidColumnModel::initial_cylindrical_shell(
                HEATER_V2_HEATED_LENGTH,
                HEATER_V2_SHELL_INNER_DIAMETER,
                HEATER_V2_SHELL_OUTER_DIAMETER,
                initial_temperature,
                ONE_ATMOSPHERE,
                steel,
                inner_nodes,
            ) {
                Ok(steel_shell) => match SolidColumnModel::initial_block(
                    HEATER_V2_HEATED_LENGTH,
                    HEATER_V2_TWISTED_TAPE_THICKNESS,
                    HEATER_V2_TWISTED_TAPE_WIDTH,
                    initial_temperature,
                    ONE_ATMOSPHERE,
                    steel,
                    inner_nodes,
                ) {
                    Ok(twisted_tape) => match cylinder_lateral_area(
                        HEATER_V2_SHELL_INNER_DIAMETER,
                        HEATER_V2_HEATED_LENGTH,
                    ) {
                        Ok(area_to_pipe) => match cylinder_lateral_area(
                            HEATER_V2_SHELL_OUTER_DIAMETER,
                            HEATER_V2_HEATED_LENGTH,
                        ) {
                            Ok(area_to_ambient) => Ok(
                                NonInsulatedPorousMediaModel {
                                    inner_nodes,
                                    interior_solid_array_for_porous_media: EntityModel::SolidArray(
                                        twisted_tape,
                                    ),
                                    pipe_shell: EntityModel::SolidArray(steel_shell),
                                    pipe_fluid_array: EntityModel::FluidArray(
                                        fluid_array.with_loss_correlation(darcy_loss_correlation),
                                    ),
                                    ambient_temperature,
                                    heat_transfer_to_ambient,
                                    flow_area: HEATER_V2_FLOW_AREA,
                                    darcy_loss_correlation,
                                    solid_side_thermal_conductance_lengthscale_pipe_to_ambient: HEATER_V2_LENGTHSCALE_PIPE_TO_AMBIENT,
                                    solid_side_thermal_conductance_lengthscale_pipe_to_fluid: HEATER_V2_LENGTHSCALE_PIPE_TO_FLUID,
                                    solid_side_thermal_conductance_lengthscale_fluid_to_porous_media_internal: HEATER_V2_LENGTHSCALE_FLUID_TO_INTERIOR,
                                    nusselt_correlation_to_pipe_shell: NusseltCorrelation::CIETHeaterVersion2(
                                        NusseltPrandtlReynoldsData {
                                            reynolds: 0,
                                            prandtl_bulk: 0,
                                            prandtl_wall: 0,
                                        },
                                    ),
                                    nusselt_correlation_lengthscale_to_ambient: HEATER_V2_HYDRAULIC_DIAMETER,
                                    convection_heat_transfer_area_to_ambient: area_to_ambient,
                                    nusselt_correlation_to_porous_media_interior: NusseltCorrelation::Wakao(
                                        WakaoData { reynolds: 0, prandtl_bulk: 0 },
                                    ),
                                    nusselt_correlation_lengthscale_to_porous_media_interior: HEATER_V2_HYDRAULIC_DIAMETER,
                                    convection_heat_transfer_area_to_pipe: area_to_pipe,
                                    convection_heat_transfer_area_to_interior,
                                },
                            ),
                            Err(e) => Err(e),
                        },
                        Err(e) => Err(e),
                    },
                    Err(e) => Err(e),
                },
                Err(e) => Err(e),
            },
            Err(e) => Err(e),
        }
    }

    /// Whether every array of the component is fresh: `inner_nodes + 2`
    /// nodes each, all at `temperature`, with no link registered, and the
    /// fluid array with the loss correlation of the component.
    pub open spec fn fresh(self, temperature: ThermodynamicTemperature) -> bool {
        &&& self.pipe_fluid_array matches EntityModel::FluidArray(fluid) && fluid.column.fresh(
            self.inner_nodes + 2,
            temperature,
        ) && fluid.fluid_component_loss_properties == self.darcy_loss_correlation
        &&& self.pipe_shell matches EntityModel::SolidArray(shell) && shell.column.fresh(
            self.inner_nodes + 2,
            temperature,
        )
        &&& self.interior_solid_array_for_porous_media matches EntityModel::SolidArray(tape)
            && tape.column.fresh(self.inner_nodes + 2, temperature)
    }

    /// A heater, where it can be made, is fresh: its fluid, its shell and
    /// its twisted tape have `inner_nodes + 2` nodes each, all at the
    /// initial temperature, and its fluid array holds its loss correlation.
    pub proof fn lemma_ciet_heater_v2_is_fresh(
        initial_temperature: ThermodynamicTemperature,
        ambient_temperature: ThermodynamicTemperature,
        inner_nodes: nat,
        heat_transfer_to_ambient: HeatTransfer,
        darcy_loss_correlation: DimensionlessDarcyLossCorrelations,
        convection_heat_transfer_area_to_interior: Area,
        fluid: MaterialModel,
        steel: MaterialModel,
    )
        requires
            fluid.wf(),
            steel.wf(),
            NonInsulatedPorousMediaModel::ciet_heater_v2(
                initial_temperature,
                ambient_temperature,
                inner_nodes,
                heat_transfer_to_ambient,
                darcy_loss_correlation,
                convection_heat_transfer_area_to_interior,
                fluid,
                steel,
            ) is Ok,
        ensures
            ({
                let heater = NonInsulatedPorousMediaModel::ciet_heater_v2(
                    initial_temperature,
                    ambient_temperature,
                    inner_nodes,
                    heat_transfer_to_ambient,
                    darcy_loss_correlation,
                    convection_heat_transfer_area_to_interior,
                    fluid,
                    steel,
                )->Ok_0;
                heater.fresh(initial_temperature) && heater.inner_nodes == inner_nodes
                    && heater.darcy_loss_correlation == darcy_loss_correlation
            }),
    {
        FluidArrayModel::lemma_initial_is_fresh(
            HEATER_V2_HEATED_LENGTH,
            HEATER_V2_HYDRAULIC_DIAMETER,
            HEATER_V2_FLOW_AREA,
            initial_temperature,
            ONE_ATMOSPHERE,
            fluid,
            inner_nodes,
        );
        let shell_area = crate::array_control_vol::solid_column::annulus_area(
            HEATER_V2_SHELL_INNER_DIAMETER,
            HEATER_V2_SHELL_OUTER_DIAMETER,
        )->Ok_0;
        SolidColumnModel::lemma_initial_is_fresh(
            HEATER_V2_HEATED_LENGTH,
            shell_area,
            initial_temperature,
            ONE_ATMOSPHERE,
            steel,
            inner_nodes,
        );
        let tape_area = crate::fixed_point::representable(
            HEATER_V2_TWISTED_TAPE_THICKNESS * HEATER_V2_TWISTED_TAPE_WIDTH,
        )->Ok_0;
        SolidColumnModel::lemma_initial_is_fresh(
            HEATER_V2_HEATED_LENGTH,
            tape_area,
            initial_temperature,
            ONE_ATMOSPHERE,
            steel,
            inner_nodes,
        );
    }

    /// The component after a step of `timestep`: all three arrays advanced.
    pub open spec fn advanced(self, timestep: Time) -> Result<
        NonInsulatedPorousMediaModel,
        TuasLibError,
    > {
        match self.pipe_fluid_array.advanced(timestep) {
            Ok(pipe_fluid_array) => match self.pipe_shell.advanced(timestep) {
                Ok(pipe_shell) => match self.interior_solid_array_for_porous_media.advanced(
                    timestep,
                ) {
                    Ok(interior_solid_array_for_porous_media) => Ok(
                        NonInsulatedPorousMediaModel {
                            interior_solid_array_for_porous_media,
                            pipe_shell,
                            pipe_fluid_array,
                            ..self
                        },
                    ),
                    Err(e) => Err(e),
                },
                Err(e) => Err(e),
            },
            Err(e) => Err(e),
        }
    }

    /// The bare heater with the loss correlation of a pipe of the given
    /// surface roughness.
    pub open spec fn ciet_heater_v2_as_pipe(
        initial_temperature: ThermodynamicTemperature,
        ambient_temperature: ThermodynamicTemperature,
        inner_nodes: nat,
        heat_transfer_to_ambient: HeatTransfer,
        surface_roughness: SurfaceRoughness,
        fluid: MaterialModel,
        steel: MaterialModel,
    ) -> Result<NonInsulatedPorousMediaModel, TuasLibError> {
        match DimensionlessDarcyLossCorrelations::pipe(
            HEATER_V2_HEATED_LENGTH,
            surface_roughness,
            HEATER_V2_HYDRAULIC_DIAMETER,
            HEATER_V2_PIPE_FORM_LOSS,
        ) {
            Ok(correlation) => NonInsulatedPorousMediaModel::ciet_heater_v2(
                initial_temperature,
                ambient_temperature,
                inner_nodes,
                heat_transfer_to_ambient,
                correlation,
                HEATER_V2_INTERIOR_AREA_WITH_HEADS,
                fluid,
                steel,
            ),
            Err(e) => Err(e),
        }
    }
}

/// The loss correlation of the heater that was measured on it:
/// `17.9 Re^-0.34`.
pub open spec fn heater_v2_measured_loss_correlation() -> DimensionlessDarcyLossCorrelations {
    DimensionlessDarcyLossCorrelations::SimpleReynoldsPower {
        a: 0,
        b: 17_900_000,
        c: (-340_000) as i64,
    }
}

/// A heater without insulation: the fluid, the steel shell around it and the
/// solid inside the flow. It holds the heated section only, not the heads at
/// its two ends.
#[derive(Clone, Debug, PartialEq)]
pub struct NonInsulatedPorousMediaFluidComponent {
    /// The number of nodes of each array between its two end nodes.
    pub inner_nodes: usize,
    /// The solid inside the flow, such as the twisted tape of the heater.
    pub interior_solid_array_for_porous_media: HeatTransferEntity,
    /// The steel shell.
    pub pipe_shell: HeatTransferEntity,
    /// The fluid.
    pub pipe_fluid_array: HeatTransferEntity,
    /// The temperature of the ambient air.
    pub ambient_temperature: ThermodynamicTemperature,
    /// The heat transfer coefficient from the shell to the ambient air.
    pub heat_transfer_to_ambient: HeatTransfer,
    /// The flow area.
    pub flow_area: Area,
    /// The pressure loss correlation of the component.
    pub darcy_loss_correlation: DimensionlessDarcyLossCorrelations,
    /// The shape factor of the outer half of the shell.
    pub solid_side_thermal_conductance_lengthscale_pipe_to_ambient: Length,
    /// The shape factor of the inner half of the shell.
    pub solid_side_thermal_conductance_lengthscale_pipe_to_fluid: Length,
    /// The shape factor of the solid inside the flow.
    pub solid_side_thermal_conductance_lengthscale_fluid_to_porous_media_internal: Length,
    /// The Nusselt correlation of the fluid on the shell.
    pub nusselt_correlation_to_pipe_shell: NusseltCorrelation,
    /// The length on which the Nusselt number on the shell is formed.
    pub nusselt_correlation_lengthscale_to_ambient: Length,
    /// The outer surface of the shell.
    pub convection_heat_transfer_area_to_ambient: Area,
    /// The Nusselt correlation of the fluid on the solid inside the flow.
    pub nusselt_correlation_to_porous_media_interior: NusseltCorrelation,
    /// The length on which the Nusselt number on the solid inside the flow
    /// is formed.
    pub nusselt_correlation_lengthscale_to_porous_media_interior: Length,
    /// The inner surface of the shell.
    pub convection_heat_transfer_area_to_pipe: Area,
    /// The surface of the solid inside the flow.
    pub convection_heat_transfer_area_to_interior: Area,
}

impl View for NonInsulatedPorousMediaFluidComponent {
    type V = NonInsulatedPorousMediaModel;

    open spec fn view(&self) -> NonInsulatedPorousMediaModel {
        NonInsulatedPorousMediaModel {
            inner_nodes: self.inner_nodes as nat,
            interior_solid_array_for_porous_media: self.interior_solid_array_for_porous_media@,
            pipe_shell: self.pipe_shell@,
            pipe_fluid_array: self.pipe_fluid_array@,
            ambient_temperature: self.ambient_temperature,
            heat_transfer_to_ambient: self.heat_transfer_to_ambient,
            flow_area: self.flow_area,
            darcy_loss_correlation: self.darcy_loss_correlation,
            solid_side_thermal_conductance_lengthscale_pipe_to_ambient: self.solid_side_thermal_conductance_lengthscale_pipe_to_ambient,
            solid_side_thermal_conductance_lengthscale_pipe_to_fluid: self.solid_side_thermal_conductance_lengthscale_pipe_to_fluid,
            solid_side_thermal_conductance_lengthscale_fluid_to_porous_media_internal: self.solid_side_thermal_conductance_lengthscale_fluid_to_porous_media_internal,
            nusselt_correlation_to_pipe_shell: self.nusselt_correlation_to_pipe_shell,
            nusselt_correlation_lengthscale_to_ambient: self.nusselt_correlation_lengthscale_to_ambient,
            convection_heat_transfer_area_to_ambient: self.convection_heat_transfer_area_to_ambient,
            nusselt_correlation_to_porous_media_interior: self.nusselt_correlation_to_porous_media_interior,
            nusselt_correlation_lengthscale_to_porous_media_interior: self.nusselt_correlation_lengthscale_to_porous_media_interior,
            convection_heat_transfer_area_to_pipe: self.convection_heat_transfer_area_to_pipe,
            convection_heat_transfer_area_to_interior: self.convection_heat_transfer_area_to_interior,
        }
    }
}

impl NonInsulatedPorousMediaFluidComponent {
    /// The bare heater with the given heat transfer coefficient to ambient
    /// air, loss correlation and surface of the twisted tape.
    fn new_ciet_heater_v2(
        initial_temperature: ThermodynamicTemperature,
        ambient_temperature: ThermodynamicTemperature,
        user_specified_inner_nodes: usize,
        h_to_air: HeatTransfer,
        darcy_loss_correlation: DimensionlessDarcyLossCorrelations,
        convection_heat_transfer_area_to_interior: Area,
        fluid: Material,
        steel: Material,
    ) -> (result: Result<NonInsulatedPorousMediaFluidComponent, TuasLibError>)
        ensures
            match result {
                Ok(heater) => NonInsulatedPorousMediaModel::ciet_heater_v2(
                    initial_temperature,
                    ambient_temperature,
                    user_specified_inner_nodes as nat,
                    h_to_air,
                    darcy_loss_correlation,
                    convection_heat_transfer_area_to_interior,
                    fluid@,
                    steel@,
                ) == Ok::<NonInsulatedPorousMediaModel, TuasLibError>(heater@),
                Err(e) => NonInsulatedPorousMediaModel::ciet_heater_v2(
                    initial_temperature,
                    ambient_temperature,
                    user_specified_inner_nodes as nat,
                    h_to_air,
                    darcy_loss_correlation,
                    convection_heat_transfer_area_to_interior,
                    fluid@,
                    steel@,
                ) == Err::<NonInsulatedPorousMediaModel, TuasLibError>(e),
            },
            result matches Ok(heater) ==> heater@.fresh(initial_temperature) && heater@.inner_nodes
                == user_specified_inner_nodes,
    {
        let flow_area: i64 = HEATER_V2_FLOW_AREA;
        let heated_length: i64 = HEATER_V2_HEATED_LENGTH;
        let atmospheric_pressure: i64 = ONE_ATMOSPHERE;
        let hydraulic_diameter: i64 = HEATER_V2_HYDRAULIC_DIAMETER;
        let steel_shell_id: i64 = HEATER_V2_SHELL_INNER_DIAMETER;
        let steel_shell_od: i64 = HEATER_V2_SHELL_OUTER_DIAMETER;
        let mut therminol_array = FluidArray::new_odd_shaped_pipe(
            heated_length,
            hydraulic_diameter,
            flow_area,
            initial_temperature,
            atmospheric_pressure,
            fluid,
            user_specified_inner_nodes,
        )?;
        therminol_array.set_fluid_component_loss_properties(darcy_loss_correlation);
        let tape_steel = steel.duplicate();
        let steel_shell_array = SolidColumn::new_cylindrical_shell(
            heated_length,
            steel_shell_id,
            steel_shell_od,
            initial_temperature,
            atmospheric_pressure,
            steel,
            user_specified_inner_nodes,
        )?;
        let twisted_tape = SolidColumn::new_block(
            heated_length,
            HEATER_V2_TWISTED_TAPE_THICKNESS,
            HEATER_V2_TWISTED_TAPE_WIDTH,
            initial_temperature,
            atmospheric_pressure,
            tape_steel,
            user_specified_inner_nodes,
        )?;
        let convection_heat_transfer_area_to_pipe: i64 = try_get_cylinder_lateral_area(
            steel_shell_id,
            heated_length,
        )?;
        let convection_heat_transfer_area_to_ambient: i64 = try_get_cylinder_lateral_area(
            steel_shell_od,
            heated_length,
        )?;
        Ok(
            NonInsulatedPorousMediaFluidComponent {
                inner_nodes: user_specified_inner_nodes,
                interior_solid_array_for_porous_media: HeatTransferEntity::ControlVolume(
                    CVType::SolidArrayCV(twisted_tape),
                ),
                pipe_shell: HeatTransferEntity::ControlVolume(
                    CVType::SolidArrayCV(steel_shell_array),
                ),
                pipe_fluid_array: HeatTransferEntity::ControlVolume(
                    CVType::FluidArrayCV(therminol_array),
                ),
                ambient_temperature,
                heat_transfer_to_ambient: h_to_air,
                flow_area,
                darcy_loss_correlation,
                solid_side_thermal_conductance_lengthscale_pipe_to_ambient: HEATER_V2_LENGTHSCALE_PIPE_TO_AMBIENT,
                solid_side_thermal_conductance_lengthscale_pipe_to_fluid: HEATER_V2_LENGTHSCALE_PIPE_TO_FLUID,
                solid_side_thermal_conductance_lengthscale_fluid_to_porous_media_internal: HEATER_V2_LENGTHSCALE_FLUID_TO_INTERIOR,
                nusselt_correlation_to_pipe_shell: NusseltCorrelation::CIETHeaterVersion2(
                    NusseltPrandtlReynoldsData::default(),
                ),
                nusselt_correlation_lengthscale_to_ambient: hydraulic_diameter,
                convection_heat_transfer_area_to_ambient,
                nusselt_correlation_to_porous_media_interior: NusseltCorrelation::Wakao(
                    WakaoData::default(),
                ),
                nusselt_correlation_lengthscale_to_porous_media_interior: hydraulic_diameter,
                convection_heat_transfer_area_to_pipe,
                convection_heat_transfer_area_to_interior,
            },
        )
    }

    /// The bare heater of the CIET facility, version 2, with the calibrated
    /// heat transfer coefficient of 20 watt per square metre and kelvin to
    /// ambient air, the loss correlation that was measured on the heater,
    /// and that part of the surface of the twisted tape that lies within the
    /// heated length. `fluid` is the heat transfer oil, `steel` the steel of
    /// the shell and of the twisted tape.
    ///
    /// Fails with the error of the first array that cannot be made: with a
    /// dimension mismatch where the number of nodes does not fit the
    /// machine, with a conversion error where `fluid` is no liquid, with a
    /// range error where a material is not defined at `initial_temperature`,
    /// and with a value that is not representable where a node would have
    /// no mass.
    pub fn new_dewet_model_heater_v2(
        initial_temperature: ThermodynamicTemperature,
        ambient_temperature: ThermodynamicTemperature,
        user_specified_inner_nodes: usize,
        fluid: Material,
        steel: Material,
    ) -> (result: Result<NonInsulatedPorousMediaFluidComponent, TuasLibError>)
        ensures
            match result {
                Ok(heater) => NonInsulatedPorousMediaModel::ciet_heater_v2(
                    initial_temperature,
                    ambient_temperature,
                    user_specified_inner_nodes as nat,
                    HEATER_V2_CALIBRATED_HEAT_TRANSFER_TO_AMBIENT,
                    heater_v2_measured_loss_correlation(),
                    HEATER_V2_INTERIOR_AREA_HEATED_LENGTH,
                    fluid@,
                    steel@,
                ) == Ok::<NonInsulatedPorousMediaModel, TuasLibError>(heater@),
                Err(e) => NonInsulatedPorousMediaModel::ciet_heater_v2(
                    initial_temperature,
                    ambient_temperature,
                    user_specified_inner_nodes as nat,
                    HEATER_V2_CALIBRATED_HEAT_TRANSFER_TO_AMBIENT,
                    heater_v2_measured_loss_correlation(),
                    HEATER_V2_INTERIOR_AREA_HEATED_LENGTH,
                    fluid@,
                    steel@,
                ) == Err::<NonInsulatedPorousMediaModel, TuasLibError>(e),
            },
            result matches Ok(heater) ==> heater@.fresh(initial_temperature) && heater@.inner_nodes
                == user_specified_inner_nodes,
    {
        // the loss correlation f = 17.9 Re^-0.34 holds to within 4 %
        let darcy_loss_correlation =
            DimensionlessDarcyLossCorrelations::new_simple_reynolds_power_component(
            0,
            17_900_000,
            -340_000,
        );
        NonInsulatedPorousMediaFluidComponent::new_ciet_heater_v2(
            initial_temperature,
            ambient_temperature,
            user_specified_inner_nodes,
            HEATER_V2_CALIBRATED_HEAT_TRANSFER_TO_AMBIENT,
            darcy_loss_correlation,
            HEATER_V2_INTERIOR_AREA_HEATED_LENGTH,
            fluid,
            steel,
        )
    }

    /// The bare heater of the CIET facility, version 2, with the heat
    /// transfer coefficient of natural convection alone, 6 watt per square
    /// metre and kelvin, to ambient air, the loss correlation of a pipe of
    /// the given surface roughness, and the whole surface of the twisted
    /// tape.
    ///
    /// Fails as `new_dewet_model_heater_v2` does, and with the error of the
    /// loss correlation.
    pub fn _new_six_watts_per_m2_kelvin_model_heater_v2_model(
        initial_temperature: ThermodynamicTemperature,
        ambient_temperature: ThermodynamicTemperature,
        user_specified_inner_nodes: usize,
        surface_roughness: SurfaceRoughness,
        fluid: Material,
        steel: Material,
    ) -> (result: Result<NonInsulatedPorousMediaFluidComponent, TuasLibError>)
        ensures
            match result {
                Ok(heater) => NonInsulatedPorousMediaModel::ciet_heater_v2_as_pipe(
                    initial_temperature,
                    ambient_temperature,
                    user_specified_inner_nodes as nat,
                    HEATER_V2_NATURAL_CONVECTION_HEAT_TRANSFER_TO_AMBIENT,
                    surface_roughness,
                    fluid@,
                    steel@,
                ) == Ok::<NonInsulatedPorousMediaModel, TuasLibError>(heater@),
                Err(e) => NonInsulatedPorousMediaModel::ciet_heater_v2_as_pipe(
                    initial_temperature,
                    ambient_temperature,
                    user_specified_inner_nodes as nat,
                    HEATER_V2_NATURAL_CONVECTION_HEAT_TRANSFER_TO_AMBIENT,
                    surface_roughness,
                    fluid@,
                    steel@,
                ) == Err::<NonInsulatedPorousMediaModel, TuasLibError>(e),
            },
            result matches Ok(heater) ==> heater@.fresh(initial_temperature) && heater@.inner_nodes
                == user_specified_inner_nodes,
    {
        NonInsulatedPorousMediaFluidComponent::ciet_heater_v2_generic_model(
            initial_temperature,
            ambient_temperature,
            user_specified_inner_nodes,
            HEATER_V2_NATURAL_CONVECTION_HEAT_TRANSFER_TO_AMBIENT,
            surface_roughness,
            fluid,
            steel,
        )
    }

    /// The bare heater of the CIET facility, version 2, with the heat
    /// transfer coefficient `h_to_air` to ambient air, the loss correlation
    /// of a pipe of the given surface roughness, and the whole surface of
    /// the twisted tape.
    ///
    /// Fails as `new_dewet_model_heater_v2` does, and with the error of the
    /// loss correlation.
    pub fn ciet_heater_v2_generic_model(
        initial_temperature: ThermodynamicTemperature,
        ambient_temperature: ThermodynamicTemperature,
        user_specified_inner_nodes: usize,
        h_to_air: HeatTransfer,
        surface_roughness: SurfaceRoughness,
        fluid: Material,
        steel: Material,
    ) -> (result: Result<NonInsulatedPorousMediaFluidComponent, TuasLibError>)
        ensures
            match result {
                Ok(heater) => NonInsulatedPorousMediaModel::ciet_heater_v2_as_pipe(
                    initial_temperature,
                    ambient_temperature,
                    user_specified_inner_nodes as nat,
                    h_to_air,
                    surface_roughness,
                    fluid@,
                    steel@,
                ) == Ok::<NonInsulatedPorousMediaModel, TuasLibError>(heater@),
                Err(e) => NonInsulatedPorousMediaModel::ciet_heater_v2_as_pipe(
                    initial_temperature,
                    ambient_temperature,
                    user_specified_inner_nodes as nat,
                    h_to_air,
                    surface_roughness,
                    fluid@,
                    steel@,
                ) == Err::<NonInsulatedPorousMediaModel, TuasLibError>(e),
            },
            result matches Ok(heater) ==> heater@.fresh(initial_temperature) && heater@.inner_nodes
                == user_specified_inner_nodes,
    {
        let darcy_loss_correlation = DimensionlessDarcyLossCorrelations::new_pipe(
            HEATER_V2_HEATED_LENGTH,
            surface_roughness,
            HEATER_V2_HYDRAULIC_DIAMETER,
            HEATER_V2_PIPE_FORM_LOSS,
        )?;
        NonInsulatedPorousMediaFluidComponent::new_ciet_heater_v2(
            initial_temperature,
            ambient_temperature,
            user_specified_inner_nodes,
            h_to_air,
            darcy_loss_correlation,
            HEATER_V2_INTERIOR_AREA_WITH_HEADS,
            fluid,
            steel,
        )
    }

    /// Advances every array of the component by `timestep` and consumes the
    /// links. Fails with a range error where the material of an array is
    /// not defined at the new specific enthalpy of a node. A failure changes
    /// nothing.
    pub fn advance_timestep(&mut self, timestep: Time) -> (result: Result<(), TuasLibError>)
        ensures
            result == outcome(old(self)@.advanced(timestep)),
            final(self)@ == state_after(old(self)@.advanced(timestep), old(self)@),
    {
        let mut fluid_clone = self.pipe_fluid_array.duplicate();
        fluid_clone.advance_timestep(timestep)?;
        let mut shell_clone = self.pipe_shell.duplicate();
        shell_clone.advance_timestep(timestep)?;
        let mut interior_clone = self.interior_solid_array_for_porous_media.duplicate();
        interior_clone.advance_timestep(timestep)?;
        self.pipe_fluid_array = fluid_clone;
        self.pipe_shell = shell_clone;
        self.interior_solid_array_for_porous_media = interior_clone;
        Ok(())
    }
}

} // verus!
