use vstd::prelude::*;

verus! {

/// Every way in which an operation of this library can fail.
///
/// All failures are recoverable: the failing operation returns one of these
/// values and leaves the state it was given untouched.
#[derive(Clone, Copy, Debug, PartialEq, Eq, Structural)]
pub enum TuasLibError {
    /// A heat transfer entity, a boundary condition or a material is not of
    /// the kind that the operation works on.
    TypeConversionError,
    /// A material property was asked for at a temperature (or a temperature
    /// for an enthalpy) outside the domain that the material declares.
    ThermophysicalPropertyTemperatureRangeError,
    /// A vector handed to an array does not fit it: it has another length
    /// than the array has nodes, or its power fractions do not sum to one.
    DimensionMismatch,
    /// The exact result of a fixed-point computation does not fit the integer
    /// type that carries it, or a division by zero was asked for.
    ValueNotRepresentable,
}

impl TuasLibError {
    /// The text that `description` returns.
    pub open spec fn description_text(self) -> Seq<char> {
        match self {
            TuasLibError::TypeConversionError => "entity or material is of the wrong kind"@,
            TuasLibError::ThermophysicalPropertyTemperatureRangeError => {
                "temperature outside the validated range of the property"@
            },
            TuasLibError::DimensionMismatch => "vector length differs from the number of nodes"@,
            TuasLibError::ValueNotRepresentable => "value is not representable in fixed point"@,
        }
    }

    /// A short description of the error, for messages.
    pub fn description(&self) -> (text: &'static str)
        ensures
            text@ == self.description_text(),
    {
        match self {
            TuasLibError::TypeConversionError => "entity or material is of the wrong kind",
            TuasLibError::ThermophysicalPropertyTemperatureRangeError => {
                "temperature outside the validated range of the property"
            },
            TuasLibError::DimensionMismatch => "vector length differs from the number of nodes",
            TuasLibError::ValueNotRepresentable => "value is not representable in fixed point",
        }
    }
}

} // verus!
