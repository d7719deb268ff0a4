use vstd::prelude::*;
use crate::units::{HeatFluxDensity, Power, ThermodynamicTemperature};

verus! {

/// A condition at the edge of the network. It is never advanced, only read
/// by the entity that links to it.
#[derive(Clone, Copy, Debug, PartialEq, Eq, Structural)]
pub enum BCType {
    /// A fixed temperature.
    UserSpecifiedTemperature(ThermodynamicTemperature),
    /// A fixed heat flux per area into the entity that links to it.
    UserSpecifiedHeatFlux(HeatFluxDensity),
    /// A fixed power into the entity that links to it; zero is adiabatic.
    UserSpecifiedHeatAddition(Power),
}

impl BCType {
    pub fn new_const_temperature(temperature: ThermodynamicTemperature) -> (bc: BCType)
        ensures
            bc == BCType::UserSpecifiedTemperature(temperature),
    {
        BCType::UserSpecifiedTemperature(temperature)
    }

    pub fn new_const_heat_flux(heat_flux: HeatFluxDensity) -> (bc: BCType)
        ensures
            bc == BCType::UserSpecifiedHeatFlux(heat_flux),
    {
        BCType::UserSpecifiedHeatFlux(heat_flux)
    }

    pub fn new_const_heat_addition(heat_addition: Power) -> (bc: BCType)
        ensures
            bc == BCType::UserSpecifiedHeatAddition(heat_addition),
    {
        BCType::UserSpecifiedHeatAddition(heat_addition)
    }

    /// The boundary through which no heat passes.
    pub fn new_adiabatic_bc() -> (bc: BCType)
        ensures
            bc == BCType::UserSpecifiedHeatAddition(0),
    {
        BCType::UserSpecifiedHeatAddition(0)
    }
}

} // verus!
