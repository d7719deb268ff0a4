use vstd::prelude::*;
use crate::heat_transfer_correlations::thermal_resistance::{ratio_of, try_get_ratio};
use crate::tuas_lib_error::TuasLibError;
use crate::fixed_point::{mul_div, quotient};
use crate::units::{Length, Ratio, SurfaceRoughness};

verus! {

/// Which correlation gives the pressure loss coefficient `f L / D + K` of a
/// fluid component for a Reynolds number, with its constants. The library
/// names the correlation of each component; it is evaluated outside.
#[derive(Clone, Copy, Debug, PartialEq, Eq, Structural)]
pub enum DimensionlessDarcyLossCorrelations {
    /// A pipe: the Darcy friction factor of a pipe of the given relative
    /// roughness, times the ratio of length to diameter, plus a form loss.
    Pipe { roughness_ratio: Ratio, length_to_diameter: Ratio, form_loss: Ratio },
    /// A component whose loss coefficient is `a + b Re^c`.
    SimpleReynoldsPower { a: Ratio, b: Ratio, c: Ratio },
}

impl DimensionlessDarcyLossCorrelations {
    /// The correlation of a pipe of the given length, surface roughness and
    /// hydraulic diameter, with the form loss `form_loss_k`.
    pub open spec fn pipe(
        pipe_length: Length,
        surface_roughness: SurfaceRoughness,
        hydraulic_diameter: Length,
        form_loss_k: Ratio,
    ) -> Result<DimensionlessDarcyLossCorrelations, TuasLibError> {
        match quotient(surface_roughness * 1000, hydraulic_diameter as int) {
            Ok(roughness_ratio) => match ratio_of(pipe_length, hydraulic_diameter) {
                Ok(length_to_diameter) => Ok(
                    DimensionlessDarcyLossCorrelations::Pipe {
                        roughness_ratio,
                        length_to_diameter,
                        form_loss: form_loss_k,
                    },
                ),
                Err(e) => Err(e),
            },
            Err(e) => Err(e),
        }
    }

    /// The correlation of a pipe of the given length, surface roughness and
    /// hydraulic diameter, with the form loss `form_loss_k`. Fails with a
    /// value that is not representable where the hydraulic diameter is not
    /// positive or a ratio is too large.
    pub fn new_pipe(
        pipe_length: Length,
        surface_roughness: SurfaceRoughness,
        hydraulic_diameter: Length,
        form_loss_k: Ratio,
    ) -> (result: Result<DimensionlessDarcyLossCorrelations, TuasLibError>)
        ensures
            result == DimensionlessDarcyLossCorrelations::pipe(
                pipe_length,
                surface_roughness,
                hydraulic_diameter,
                form_loss_k,
            ),
    {
        // a nanometre over a micrometre is a thousandth
        let roughness_ratio: i64 = mul_div(surface_roughness, 1000, hydraulic_diameter)?;
        let length_to_diameter: i64 = try_get_ratio(pipe_length, hydraulic_diameter)?;
        Ok(
            DimensionlessDarcyLossCorrelations::Pipe {
                roughness_ratio,
                length_to_diameter,
                form_loss: form_loss_k,
            },
        )
    }

    /// The correlation `a + b Re^c`.
    pub fn new_simple_reynolds_power_component(a: Ratio, b: Ratio, c: Ratio) -> (correlation:
        DimensionlessDarcyLossCorrelations)
        ensures
            correlation == (DimensionlessDarcyLossCorrelations::SimpleReynoldsPower { a, b, c }),
    {
        DimensionlessDarcyLossCorrelations::SimpleReynoldsPower { a, b, c }
    }
}

} // verus!
