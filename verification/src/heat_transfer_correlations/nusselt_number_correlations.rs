use vstd::prelude::*;
use crate::units::Ratio;

verus! {

/// What a Nusselt correlation of the Gnielinski kind is evaluated on.
#[derive(Clone, Copy, Debug, PartialEq, Eq, Structural)]
pub struct GnielinskiData {
    pub reynolds: Ratio,
    pub prandtl_bulk: Ratio,
    pub prandtl_wall: Ratio,
    /// The Darcy friction factor, which the loss correlation of the
    /// component gives for the Reynolds number.
    pub darcy_friction_factor: Ratio,
    pub length_to_diameter: Ratio,
}

impl Default for GnielinskiData {
    fn default() -> (data: GnielinskiData)
        ensures
            data == (GnielinskiData {
                reynolds: 0,
                prandtl_bulk: 0,
                prandtl_wall: 0,
                darcy_friction_factor: 0,
                length_to_diameter: 0,
            }),
    {
        GnielinskiData {
            reynolds: 0,
            prandtl_bulk: 0,
            prandtl_wall: 0,
            darcy_friction_factor: 0,
            length_to_diameter: 0,
        }
    }
}

/// What a Nusselt correlation in Reynolds and Prandtl number is evaluated on.
#[derive(Clone, Copy, Debug, PartialEq, Eq, Structural)]
pub struct NusseltPrandtlReynoldsData {
    pub reynolds: Ratio,
    pub prandtl_bulk: Ratio,
    pub prandtl_wall: Ratio,
}

impl Default for NusseltPrandtlReynoldsData {
    fn default() -> (data: NusseltPrandtlReynoldsData)
        ensures
            data == (NusseltPrandtlReynoldsData { reynolds: 0, prandtl_bulk: 0, prandtl_wall: 0 }),
    {
        NusseltPrandtlReynoldsData { reynolds: 0, prandtl_bulk: 0, prandtl_wall: 0 }
    }
}

/// What the Wakao correlation for packed beds is evaluated on.
#[derive(Clone, Copy, Debug, PartialEq, Eq, Structural)]
pub struct WakaoData {
    pub reynolds: Ratio,
    pub prandtl_bulk: Ratio,
}

impl Default for WakaoData {
    fn default() -> (data: WakaoData)
        ensures
            data == (WakaoData { reynolds: 0, prandtl_bulk: 0 }),
    {
        WakaoData { reynolds: 0, prandtl_bulk: 0 }
    }
}

/// Which Nusselt correlation holds for a film, with the numbers that it is
/// evaluated on. The library names the correlation of each film; it is
/// evaluated outside, and the Nusselt number handed back.
#[derive(Clone, Copy, Debug, PartialEq, Eq, Structural)]
pub enum NusseltCorrelation {
    /// The Gnielinski correlation for pipes.
    PipeGnielinskiGeneric(GnielinskiData),
    /// The Wakao correlation for packed beds.
    Wakao(WakaoData),
    /// The correlation of the heater of the CIET facility, version 2.
    CIETHeaterVersion2(NusseltPrandtlReynoldsData),
    /// A Nusselt number that does not depend on the flow.
    FixedNusselt(Ratio),
}

} // verus!
