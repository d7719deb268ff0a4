use vstd::prelude::*;
use crate::heat_transfer_correlations::thermal_resistance::{
    convective_conductance, cylinder_lateral_area, layer_conductance, series_conductance,
    try_get_convective_conductance, try_get_cylinder_lateral_area, try_get_layer_conductance,
    try_get_series_conductance,
};
use crate::tuas_lib_error::TuasLibError;
use crate::units::{
    Area, HeatTransfer, Length, MassDensity, MassRate, ThermalConductance, ThermalConductivity,
};

verus! {

/// A mass flow from the first entity of a link to the second, with the
/// density of the fluid on either side.
#[derive(Clone, Copy, Debug, PartialEq, Eq, Structural)]
pub struct DataAdvection {
    /// Positive from the first entity to the second.
    pub mass_flowrate: MassRate,
    pub fluid_density_heat_transfer_entity_1: MassDensity,
    pub fluid_density_heat_transfer_entity_2: MassDensity,
}

/// A convective film of given area and heat transfer coefficient.
#[derive(Clone, Copy, Debug, PartialEq, Eq, Structural)]
pub struct DataUserSpecifiedConvectionResistance {
    pub surf_area: Area,
    pub heat_transfer_coeff: HeatTransfer,
}

/// A cylindrical solid layer with a convective film on one of its surfaces.
#[derive(Clone, Copy, Debug, PartialEq, Eq, Structural)]
pub struct DataCylindricalConductionConvection {
    /// The conductivity of the solid.
    pub solid_conductivity: ThermalConductivity,
    /// The shape factor of the solid layer, `2 pi L / ln(r_o / r_i)`.
    pub solid_shape_factor: Length,
    /// The heat transfer coefficient of the film.
    pub heat_transfer_coeff: HeatTransfer,
    /// The diameter of the surface that the film covers.
    pub film_diameter: Length,
    /// The length of the cylinder.
    pub node_length: Length,
}

/// How two heat transfer entities exchange heat.
#[derive(Clone, Copy, Debug, PartialEq, Eq, Structural)]
pub enum HeatTransferInteractionType {
    /// Conduction through a given conductance.
    UserSpecifiedThermalConductance(ThermalConductance),
    /// The power that a heat addition boundary condition states.
    UserSpecifiedHeatAddition,
    /// The heat flux that a heat flux boundary condition states, through the
    /// given area.
    UserSpecifiedHeatFluxCustomArea(Area),
    /// Convection through a film of given area and coefficient.
    UserSpecifiedConvectionResistance(DataUserSpecifiedConvectionResistance),
    /// Conduction through a cylindrical layer in series with a film on its
    /// outer surface.
    CylindricalConductionConvectionLiquidOutside(DataCylindricalConductionConvection),
    /// Conduction through a cylindrical layer in series with a film on its
    /// inner surface.
    CylindricalConductionConvectionLiquidInside(DataCylindricalConductionConvection),
    /// Transport of enthalpy by a mass flow.
    Advection(DataAdvection),
}

/// The conductance of a cylindrical layer in series with the film on one of
/// its surfaces.
pub open spec fn cylindrical_conductance(data: DataCylindricalConductionConvection) -> Result<
    ThermalConductance,
    TuasLibError,
> {
    match layer_conductance(data.solid_conductivity, data.solid_shape_factor) {
        Ok(solid) => match cylinder_lateral_area(data.film_diameter, data.node_length) {
            Ok(area) => match convective_conductance(data.heat_transfer_coeff, area) {
                Ok(film) => series_conductance(solid, film),
                Err(e) => Err(e),
            },
            Err(e) => Err(e),
        },
        Err(e) => Err(e),
    }
}

impl HeatTransferInteractionType {
    /// The conductance of the interaction. An interaction that is no
    /// conductance between two temperatures (advection, a stated power or
    /// heat flux) has none: asking for it is a conversion error.
    pub open spec fn conductance(self) -> Result<ThermalConductance, TuasLibError> {
        match self {
            HeatTransferInteractionType::UserSpecifiedThermalConductance(conductance) => Ok(
                conductance,
            ),
            HeatTransferInteractionType::UserSpecifiedConvectionResistance(data) => {
                convective_conductance(data.heat_transfer_coeff, data.surf_area)
            },
            HeatTransferInteractionType::CylindricalConductionConvectionLiquidOutside(data) => {
                cylindrical_conductance(data)
            },
            HeatTransferInteractionType::CylindricalConductionConvectionLiquidInside(data) => {
                cylindrical_conductance(data)
            },
            HeatTransferInteractionType::UserSpecifiedHeatAddition => Err(
                TuasLibError::TypeConversionError,
            ),
            HeatTransferInteractionType::UserSpecifiedHeatFluxCustomArea(_) => Err(
                TuasLibError::TypeConversionError,
            ),
            HeatTransferInteractionType::Advection(_) => Err(TuasLibError::TypeConversionError),
        }
    }

    /// The advection of `mass_flowrate` from the first entity of a link to
    /// the second.
    pub fn new_advection_interaction(
        mass_flowrate: MassRate,
        fluid_density_heat_transfer_entity_1: MassDensity,
        fluid_density_heat_transfer_entity_2: MassDensity,
    ) -> (interaction: HeatTransferInteractionType)
        ensures
            interaction == HeatTransferInteractionType::Advection(
                DataAdvection {
                    mass_flowrate,
                    fluid_density_heat_transfer_entity_1,
                    fluid_density_heat_transfer_entity_2,
                },
            ),
    {
        HeatTransferInteractionType::Advection(
            DataAdvection {
                mass_flowrate,
                fluid_density_heat_transfer_entity_1,
                fluid_density_heat_transfer_entity_2,
            },
        )
    }
}

/// The conductance of a cylindrical layer in series with the film on one of
/// its surfaces.
pub fn try_get_cylindrical_conductance(data: DataCylindricalConductionConvection) -> (result: Result<
    ThermalConductance,
    TuasLibError,
>)
    ensures
        result == cylindrical_conductance(data),
{
    let solid: i64 = match try_get_layer_conductance(
        data.solid_conductivity,
        data.solid_shape_factor,
    ) {
        Ok(g) => g,
        Err(e) => {
            return Err(e);
        },
    };
    let area: i64 = match try_get_cylinder_lateral_area(data.film_diameter, data.node_length) {
        Ok(a) => a,
        Err(e) => {
            return Err(e);
        },
    };
    let film: i64 = match try_get_convective_conductance(data.heat_transfer_coeff, area) {
        Ok(g) => g,
        Err(e) => {
            return Err(e);
        },
    };
    try_get_series_conductance(solid, film)
}

/// The conductance of an interaction.
pub fn try_get_thermal_conductance_based_on_interaction(
    interaction: HeatTransferInteractionType,
) -> (result: Result<ThermalConductance, TuasLibError>)
    ensures
        result == interaction.conductance(),
{
    match interaction {
        HeatTransferInteractionType::UserSpecifiedThermalConductance(conductance) => Ok(
            conductance,
        ),
        HeatTransferInteractionType::UserSpecifiedConvectionResistance(data) => {
            try_get_convective_conductance(data.heat_transfer_coeff, data.surf_area)
        },
        HeatTransferInteractionType::CylindricalConductionConvectionLiquidOutside(data) => {
            try_get_cylindrical_conductance(data)
        },
        HeatTransferInteractionType::CylindricalConductionConvectionLiquidInside(data) => {
            try_get_cylindrical_conductance(data)
        },
        HeatTransferInteractionType::UserSpecifiedHeatAddition => Err(
            TuasLibError::TypeConversionError,
        ),
        HeatTransferInteractionType::UserSpecifiedHeatFluxCustomArea(_) => Err(
            TuasLibError::TypeConversionError,
        ),
        HeatTransferInteractionType::Advection(_) => Err(TuasLibError::TypeConversionError),
    }
}

} // verus!
