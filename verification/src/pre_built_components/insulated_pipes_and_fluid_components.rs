use vstd::prelude::*;
use crate::array_control_vol::column::{outcome, state_after};
use crate::array_control_vol::fluid_array::{FluidArray, FluidArrayModel};
use crate::array_control_vol::solid_column::{SolidColumn, SolidColumnModel};
use crate::boussinesq_thermophysical_properties::material::{Material, MaterialModel};
use crate::fixed_point::{narrow, representable};
use crate::heat_transfer_correlations::darcy_loss_correlations::DimensionlessDarcyLossCorrelations;
use crate::pre_built_components::heat_transfer_entities::{
    CVType, EntityModel, HeatTransferEntity,
};
use crate::tuas_lib_error::TuasLibError;
use crate::units::{
    Area, HeatTransfer, Length, Pressure, Ratio, SurfaceRoughness, ThermodynamicTemperature, Time,
};

verus! {

/// What an insulated fluid component is to this library.
pub struct InsulatedFluidModel {
    pub inner_nodes: nat,
    pub pipe_shell: EntityModel,
    pub pipe_fluid_array: EntityModel,
    pub insulation: EntityModel,
    pub ambient_temperature: ThermodynamicTemperature,
    pub heat_transfer_to_ambient: HeatTransfer,
    pub tube_od: Length,
    pub tube_id: Length,
    pub insulation_od: Length,
    pub insulation_id: Length,
    pub flow_area: Area,
    pub darcy_loss_correlation: DimensionlessDarcyLossCorrelations,
}

impl InsulatedFluidModel {
    /// The component of a fluid in a shell with insulation around it, all at
    /// `initial_temperature`: a fluid array that fills the flow path, a
    /// cylindrical shell from `shell_id` to `shell_od`, and insulation of
    /// the given thickness around the shell, each of `inner_nodes + 2`
    /// nodes. The fluid array holds the loss correlation of the component.
    pub open spec fn initial(
        initial_temperature: ThermodynamicTemperature,
        ambient_temperature: ThermodynamicTemperature,
        fluid_pressure: Pressure,
        solid_pressure: Pressure,
        flow_area: Area,
        shell_id: Length,
        shell_od: Length,
        insulation_thickness: Length,
        component_length: Length,
        hydraulic_diameter: Length,
        pipe_shell_material: MaterialModel,
        insulation_material: MaterialModel,
        pipe_fluid: MaterialModel,
        htc_to_ambient: HeatTransfer,
        inner_nodes: nat,
        darcy_loss_correlation: DimensionlessDarcyLossCorrelations,
    ) -> Result<InsulatedFluidModel, TuasLibError> {
        match FluidArrayModel::initial(
            component_length,
            hydraulic_diameter,
            flow_area,
            initial_temperature,
            fluid_pressure,
            pipe_fluid,
            inner_nodes,
        ) {
            Ok(fluid_array) => match SolidColumnModel::initial_cylindrical_shell(
                component_length,
                shell_id,
                shell_od,
                initial_temperature,
                solid_pressure,
                pipe_shell_material,
                inner_nodes,
            ) {
                Ok(pipe_shell) => match representable(shell_od + 2 * insulation_thickness) {
                    Ok(insulation_od) => match SolidColumnModel::initial_cylindrical_shell(
                        component_length,
                        shell_od,
                        insulation_od,
                        initial_temperature,
                        solid_pressure,
                        insulation_material,
                        inner_nodes,
                    ) {
                        Ok(insulation) => Ok(
                            InsulatedFluidModel {
                                inner_nodes,
                                pipe_shell: EntityModel::SolidArray(pipe_shell),
                                pipe_fluid_array: EntityModel::FluidArray(
                                    fluid_array.with_loss_correlation(darcy_loss_correlation),
                                ),
                                insulation: EntityModel::SolidArray(insulation),
                                ambient_temperature,
                                heat_transfer_to_ambient: htc_to_ambient,
                                tube_od: shell_od,
                                tube_id: shell_id,
                                insulation_od,
                                insulation_id: shell_od,
                                flow_area,
                                darcy_loss_correlation,
                            },
                        ),
                        Err(e) => Err(e),
                    },
                    Err(e) => Err(e),
                },
                Err(e) => Err(e),
            },
            Err(e) => Err(e),
        }
    }

    /// Whether every array of the component is fresh: `inner_nodes + 2`
    /// nodes each, all at `temperature`, with no link registered.
    pub open spec fn fresh(self, temperature: ThermodynamicTemperature) -> bool {
        &&& self.pipe_fluid_array matches EntityModel::FluidArray(fluid) && fluid.column.fresh(
            self.inner_nodes + 2,
            temperature,
        ) && fluid.fluid_component_loss_properties == self.darcy_loss_correlation
        &&& self.pipe_shell matches EntityModel::SolidArray(shell) && shell.column.fresh(
            self.inner_nodes + 2,
            temperature,
        )
        &&& self.insulation matches EntityModel::SolidArray(insulation)
            && insulation.column.fresh(self.inner_nodes + 2, temperature)
    }

    /// A component, where it can be made, is fresh: each of its arrays has
    /// `inner_nodes + 2` nodes, all at the initial temperature, of the
    /// length of the component, and its fluid array holds its loss
    /// correlation.
    pub proof fn lemma_initial_is_fresh(
        initial_temperature: ThermodynamicTemperature,
        ambient_temperature: ThermodynamicTemperature,
        fluid_pressure: Pressure,
        solid_pressure: Pressure,
        flow_area: Area,
        shell_id: Length,
        shell_od: Length,
        insulation_thickness: Length,
        component_length: Length,
        hydraulic_diameter: Length,
        pipe_shell_material: MaterialModel,
        insulation_material: MaterialModel,
        pipe_fluid: MaterialModel,
        htc_to_ambient: HeatTransfer,
        inner_nodes: nat,
        darcy_loss_correlation: DimensionlessDarcyLossCorrelations,
    )
        requires
            pipe_shell_material.wf(),
            insulation_material.wf(),
            pipe_fluid.wf(),
            InsulatedFluidModel::initial(
                initial_temperature,
                ambient_temperature,
                fluid_pressure,
                solid_pressure,
                flow_area,
                shell_id,
                shell_od,
                insulation_thickness,
                component_length,
                hydraulic_diameter,
                pipe_shell_material,
                insulation_material,
                pipe_fluid,
                htc_to_ambient,
                inner_nodes,
                darcy_loss_correlation,
            ) is Ok,
        ensures
            ({
                let component = InsulatedFluidModel::initial(
                    initial_temperature,
                    ambient_temperature,
                    fluid_pressure,
                    solid_pressure,
                    flow_area,
                    shell_id,
                    shell_od,
                    insulation_thickness,
                    component_length,
                    hydraulic_diameter,
                    pipe_shell_material,
                    insulation_material,
                    pipe_fluid,
                    htc_to_ambient,
                    inner_nodes,
                    darcy_loss_correlation,
                )->Ok_0;
                component.fresh(initial_temperature) && component.inner_nodes == inner_nodes
                    && component.darcy_loss_correlation == darcy_loss_correlation
                    && component.pipe_fluid_array->FluidArray_0.component_length
                    == component_length
            }),
    {
        FluidArrayModel::lemma_initial_is_fresh(
            component_length,
            hydraulic_diameter,
            flow_area,
            initial_temperature,
            fluid_pressure,
            pipe_fluid,
            inner_nodes,
        );
        let shell_area = crate::array_control_vol::solid_column::annulus_area(shell_id, shell_od)->Ok_0;
        SolidColumnModel::lemma_initial_is_fresh(
            component_length,
            shell_area,
            initial_temperature,
            solid_pressure,
            pipe_shell_material,
            inner_nodes,
        );
        let insulation_od = representable(shell_od + 2 * insulation_thickness)->Ok_0;
        let insulation_area = crate::array_control_vol::solid_column::annulus_area(
            shell_od,
            insulation_od,
        )->Ok_0;
        SolidColumnModel::lemma_initial_is_fresh(
            component_length,
            insulation_area,
            initial_temperature,
            solid_pressure,
            insulation_material,
            inner_nodes,
        );
    }

    /// The component after a step of `timestep`: all three arrays advanced.
    pub open spec fn advanced(self, timestep: Time) -> Result<InsulatedFluidModel, TuasLibError> {
        match self.pipe_fluid_array.advanced(timestep) {
            Ok(pipe_fluid_array) => match self.pipe_shell.advanced(timestep) {
                Ok(pipe_shell) => match self.insulation.advanced(timestep) {
                    Ok(insulation) => Ok(
                        InsulatedFluidModel { pipe_shell, pipe_fluid_array, insulation, ..self },
                    ),
                    Err(e) => Err(e),
                },
                Err(e) => Err(e),
            },
            Err(e) => Err(e),
        }
    }

    /// The insulated pipe: the component with the loss correlation of a pipe
    /// of its length, hydraulic diameter and surface roughness.
    pub open spec fn initial_insulated_pipe(
        initial_temperature: ThermodynamicTemperature,
        ambient_temperature: ThermodynamicTemperature,
        fluid_pressure: Pressure,
        solid_pressure: Pressure,
        flow_area: Area,
        form_loss: Ratio,
        shell_id: Length,
        shell_od: Length,
        insulation_thickness: Length,
        pipe_length: Length,
        hydraulic_diameter: Length,
        pipe_shell_material: MaterialModel,
        insulation_material: MaterialModel,
        pipe_fluid: MaterialModel,
        htc_to_ambient: HeatTransfer,
        inner_nodes: nat,
        surface_roughness: SurfaceRoughness,
    ) -> Result<InsulatedFluidModel, TuasLibError> {
        match DimensionlessDarcyLossCorrelations::pipe(
            pipe_length,
            surface_roughness,
            hydraulic_diameter,
            form_loss,
        ) {
            Ok(correlation) => InsulatedFluidModel::initial(
                initial_temperature,
                ambient_temperature,
                fluid_pressure,
                solid_pressure,
                flow_area,
                shell_id,
                shell_od,
                insulation_thickness,
                pipe_length,
                hydraulic_diameter,
                pipe_shell_material,
                insulation_material,
                pipe_fluid,
                htc_to_ambient,
                inner_nodes,
                correlation,
            ),
            Err(e) => Err(e),
        }
    }
}

/// The simplest fluid component: a fluid in a pipe shell with insulation
/// around it, exposed to ambient air. By default no heat passes through the
/// ends of its arrays.
#[derive(Clone, Debug, PartialEq)]
pub struct InsulatedFluidComponent {
    /// The number of nodes of each array between its two end nodes.
    pub inner_nodes: usize,
    /// The pipe shell: one radial layer of control volumes, coupled to the
    /// fluid and to the insulation.
    pub pipe_shell: HeatTransferEntity,
    /// The fluid, coupled to the pipe shell.
    pub pipe_fluid_array: HeatTransferEntity,
    /// The insulation, coupled to the pipe shell and exposed to the ambient
    /// air.
    pub insulation: HeatTransferEntity,
    /// The temperature of the ambient air.
    pub ambient_temperature: ThermodynamicTemperature,
    /// The heat transfer coefficient from the insulation to the ambient air.
    pub heat_transfer_to_ambient: HeatTransfer,
    /// The outer diameter of the pipe shell.
    pub tube_od: Length,
    /// The inner diameter of the pipe shell.
    pub tube_id: Length,
    /// The outer diameter of the insulation.
    pub insulation_od: Length,
    /// The inner diameter of the insulation.
    pub insulation_id: Length,
    /// The flow area.
    pub flow_area: Area,
    /// The pressure loss correlation of the component.
    pub darcy_loss_correlation: DimensionlessDarcyLossCorrelations,
}

impl View for InsulatedFluidComponent {
    type V = InsulatedFluidModel;

    open spec fn view(&self) -> InsulatedFluidModel {
        InsulatedFluidModel {
            inner_nodes: self.inner_nodes as nat,
            pipe_shell: self.pipe_shell@,
            pipe_fluid_array: self.pipe_fluid_array@,
            insulation: self.insulation@,
            ambient_temperature: self.ambient_temperature,
            heat_transfer_to_ambient: self.heat_transfer_to_ambient,
            tube_od: self.tube_od,
            tube_id: self.tube_id,
            insulation_od: self.insulation_od,
            insulation_id: self.insulation_id,
            flow_area: self.flow_area,
            darcy_loss_correlation: self.darcy_loss_correlation,
        }
    }
}

impl InsulatedFluidComponent {
    /// The component with the given loss correlation.
    fn new(
        initial_temperature: ThermodynamicTemperature,
        ambient_temperature: ThermodynamicTemperature,
        fluid_pressure: Pressure,
        solid_pressure: Pressure,
        flow_area: Area,
        shell_id: Length,
        shell_od: Length,
        insulation_thickness: Length,
        component_length: Length,
        hydraulic_diameter: Length,
        pipe_shell_material: Material,
        insulation_material: Material,
        pipe_fluid: Material,
        htc_to_ambient: HeatTransfer,
        user_specified_inner_nodes: usize,
        darcy_loss_correlation: DimensionlessDarcyLossCorrelations,
    ) -> (result: Result<InsulatedFluidComponent, TuasLibError>)
        ensures
            match result {
                Ok(component) => InsulatedFluidModel::initial(
                    initial_temperature,
                    ambient_temperature,
                    fluid_pressure,
                    solid_pressure,
                    flow_area,
                    shell_id,
                    shell_od,
                    insulation_thickness,
                    component_length,
                    hydraulic_diameter,
                    pipe_shell_material@,
                    insulation_material@,
                    pipe_fluid@,
                    htc_to_ambient,
                    user_specified_inner_nodes as nat,
                    darcy_loss_correlation,
                ) == Ok::<InsulatedFluidModel, TuasLibError>(component@),
                Err(e) => InsulatedFluidModel::initial(
                    initial_temperature,
                    ambient_temperature,
                    fluid_pressure,
                    solid_pressure,
                    flow_area,
                    shell_id,
                    shell_od,
                    insulation_thickness,
                    component_length,
                    hydraulic_diameter,
                    pipe_shell_material@,
                    insulation_material@,
                    pipe_fluid@,
                    htc_to_ambient,
                    user_specified_inner_nodes as nat,
                    darcy_loss_correlation,
                ) == Err::<InsulatedFluidModel, TuasLibError>(e),
            },
            result matches Ok(component) ==> component@.fresh(initial_temperature)
                && component@.inner_nodes == user_specified_inner_nodes,
    {
        let mut fluid_array = FluidArray::new_odd_shaped_pipe(
            component_length,
            hydraulic_diameter,
            flow_area,
            initial_temperature,
            fluid_pressure,
            pipe_fluid,
            user_specified_inner_nodes,
        )?;
        fluid_array.set_fluid_component_loss_properties(darcy_loss_correlation);
        let pipe_shell = SolidColumn::new_cylindrical_shell(
            component_length,
            shell_id,
            shell_od,
            initial_temperature,
            solid_pressure,
            pipe_shell_material,
            user_specified_inner_nodes,
        )?;
        let insulation_id: i64 = shell_od;
        let insulation_od: i64 = narrow(insulation_id as i128 + 2 * (insulation_thickness as i128))?;
        let insulation = SolidColumn::new_cylindrical_shell(
            component_length,
            insulation_id,
            insulation_od,
            initial_temperature,
            solid_pressure,
            insulation_material,
            user_specified_inner_nodes,
        )?;
        Ok(
            InsulatedFluidComponent {
                inner_nodes: user_specified_inner_nodes,
                pipe_shell: HeatTransferEntity::ControlVolume(CVType::SolidArrayCV(pipe_shell)),
                pipe_fluid_array: HeatTransferEntity::ControlVolume(
                    CVType::FluidArrayCV(fluid_array),
                ),
                insulation: HeatTransferEntity::ControlVolume(CVType::SolidArrayCV(insulation)),
                ambient_temperature,
                heat_transfer_to_ambient: htc_to_ambient,
                tube_od: shell_od,
                tube_id: shell_id,
                insulation_od,
                insulation_id,
                flow_area,
                darcy_loss_correlation,
            },
        )
    }

    /// The insulated pipe of the given dimensions and materials, all of it
    /// at `initial_temperature`. The outer diameter of the shell is the
    /// inner diameter of the insulation. Each array has
    /// `user_specified_inner_nodes + 2` nodes. The loss correlation is that
    /// of a pipe with the form loss `form_loss`.
    ///
    /// Fails with the error of the loss correlation or of the first array
    /// that cannot be made, and with a value that is not representable
    /// where the outer diameter of the insulation is.
    pub fn new_insulated_pipe(
        initial_temperature: ThermodynamicTemperature,
        ambient_temperature: ThermodynamicTemperature,
        fluid_pressure: Pressure,
        solid_pressure: Pressure,
        flow_area: Area,
        form_loss: Ratio,
        shell_id: Length,
        shell_od: Length,
        insulation_thickness: Length,
        pipe_length: Length,
        hydraulic_diameter: Length,
        pipe_shell_material: Material,
        insulation_material: Material,
        pipe_fluid: Material,
        htc_to_ambient: HeatTransfer,
        user_specified_inner_nodes: usize,
        surface_roughness: SurfaceRoughness,
    ) -> (result: Result<InsulatedFluidComponent, TuasLibError>)
        ensures
            match result {
                Ok(component) => InsulatedFluidModel::initial_insulated_pipe(
                    initial_temperature,
                    ambient_temperature,
                    fluid_pressure,
                    solid_pressure,
                    flow_area,
                    form_loss,
                    shell_id,
                    shell_od,
                    insulation_thickness,
                    pipe_length,
                    hydraulic_diameter,
                    pipe_shell_material@,
                    insulation_material@,
                    pipe_fluid@,
                    htc_to_ambient,
                    user_specified_inner_nodes as nat,
                    surface_roughness,
                ) == Ok::<InsulatedFluidModel, TuasLibError>(component@),
                Err(e) => InsulatedFluidModel::initial_insulated_pipe(
                    initial_temperature,
                    ambient_temperature,
                    fluid_pressure,
                    solid_pressure,
                    flow_area,
                    form_loss,
                    shell_id,
                    shell_od,
                    insulation_thickness,
                    pipe_length,
                    hydraulic_diameter,
                    pipe_shell_material@,
                    insulation_material@,
                    pipe_fluid@,
                    htc_to_ambient,
                    user_specified_inner_nodes as nat,
                    surface_roughness,
                ) == Err::<InsulatedFluidModel, TuasLibError>(e),
            },
            result matches Ok(component) ==> component@.fresh(initial_temperature)
                && component@.inner_nodes == user_specified_inner_nodes,
    {
        let pipe_loss_correlation = DimensionlessDarcyLossCorrelations::new_pipe(
            pipe_length,
            surface_roughness,
            hydraulic_diameter,
            form_loss,
        )?;
        InsulatedFluidComponent::new(
            initial_temperature,
            ambient_temperature,
            fluid_pressure,
            solid_pressure,
            flow_area,
            shell_id,
            shell_od,
            insulation_thickness,
            pipe_length,
            hydraulic_diameter,
            pipe_shell_material,
            insulation_material,
            pipe_fluid,
            htc_to_ambient,
            user_specified_inner_nodes,
            pipe_loss_correlation,
        )
    }

    /// The insulated component of the given dimensions and materials whose
    /// loss coefficient is `form_loss + reynolds_coefficient * Re ^
    /// reynolds_power`, all of it at `initial_temperature`.
    ///
    /// Fails with the error of the first array that cannot be made, and
    /// with a value that is not representable where the outer diameter of
    /// the insulation is.
    pub fn new_custom_component(
        initial_temperature: ThermodynamicTemperature,
        ambient_temperature: ThermodynamicTemperature,
        fluid_pressure: Pressure,
        solid_pressure: Pressure,
        flow_area: Area,
        form_loss: Ratio,
        reynolds_coefficient: Ratio,
        reynolds_power: Ratio,
        shell_id: Length,
        shell_od: Length,
        insulation_thickness: Length,
        component_length: Length,
        hydraulic_diameter: Length,
        pipe_shell_material: Material,
        insulation_material: Material,
        pipe_fluid: Material,
        htc_to_ambient: HeatTransfer,
        user_specified_inner_nodes: usize,
    ) -> (result: Result<InsulatedFluidComponent, TuasLibError>)
        ensures
            match result {
                Ok(component) => InsulatedFluidModel::initial(
                    initial_temperature,
                    ambient_temperature,
                    fluid_pressure,
                    solid_pressure,
                    flow_area,
                    shell_id,
                    shell_od,
                    insulation_thickness,
                    component_length,
                    hydraulic_diameter,
                    pipe_shell_material@,
                    insulation_material@,
                    pipe_fluid@,
                    htc_to_ambient,
                    user_specified_inner_nodes as nat,
                    DimensionlessDarcyLossCorrelations::SimpleReynoldsPower {
                        a: form_loss,
                        b: reynolds_coefficient,
                        c: reynolds_power,
                    },
                ) == Ok::<InsulatedFluidModel, TuasLibError>(component@),
                Err(e) => InsulatedFluidModel::initial(
                    initial_temperature,
                    ambient_temperature,
                    fluid_pressure,
                    solid_pressure,
                    flow_area,
                    shell_id,
                    shell_od,
                    insulation_thickness,
                    component_length,
                    hydraulic_diameter,
                    pipe_shell_material@,
                    insulation_material@,
                    pipe_fluid@,
                    htc_to_ambient,
                    user_specified_inner_nodes as nat,
                    DimensionlessDarcyLossCorrelations::SimpleReynoldsPower {
                        a: form_loss,
                        b: reynolds_coefficient,
                        c: reynolds_power,
                    },
                ) == Err::<InsulatedFluidModel, TuasLibError>(e),
            },
            result matches Ok(component) ==> component@.fresh(initial_temperature)
                && component@.inner_nodes == user_specified_inner_nodes,
    {
        let custom_component_loss_correlation =
            DimensionlessDarcyLossCorrelations::new_simple_reynolds_power_component(
            form_loss,
            reynolds_coefficient,
            reynolds_power,
        );
        InsulatedFluidComponent::new(
            initial_temperature,
            ambient_temperature,
            fluid_pressure,
            solid_pressure,
            flow_area,
            shell_id,
            shell_od,
            insulation_thickness,
            component_length,
            hydraulic_diameter,
            pipe_shell_material,
            insulation_material,
            pipe_fluid,
            htc_to_ambient,
            user_specified_inner_nodes,
            custom_component_loss_correlation,
        )
    }

    /// Advances every array of the component by `timestep` and consumes the
    /// links. Fails with a range error where the material of an array is
    /// not defined at the new specific enthalpy of a node. A failure changes
    /// nothing.
    pub fn advance_timestep(&mut self, timestep: Time) -> (result: Result<(), TuasLibError>)
        ensures
            result == outcome(old(self)@.advanced(timestep)),
            final(self)@ == state_after(old(self)@.advanced(timestep), old(self)@),
    {
        let mut fluid_clone = self.pipe_fluid_array.duplicate();
        fluid_clone.advance_timestep(timestep)?;
        let mut shell_clone = self.pipe_shell.duplicate();
        shell_clone.advance_timestep(timestep)?;
        let mut insulation_clone = self.insulation.duplicate();
        insulation_clone.advance_timestep(timestep)?;
        self.pipe_fluid_array = fluid_clone;
        self.pipe_shell = shell_clone;
        self.insulation = insulation_clone;
        Ok(())
    }
}

} // verus!
