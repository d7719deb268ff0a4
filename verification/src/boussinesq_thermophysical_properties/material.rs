use vstd::prelude::*;
use crate::boussinesq_thermophysical_properties::property_curve::{PropertyCurve, Table};
use crate::fixed_point::{fits_i64, mul_div, quotient};
use crate::tuas_lib_error::TuasLibError;
use crate::units::{
    AvailableEnergy, DynamicViscosity, MassDensity, Pressure, Ratio, SpecificHeatCapacity,
    ThermalConductivity, ThermodynamicTemperature, ZERO_CELSIUS,
};

verus! {

/// What a material is to this library: its properties as functions of
/// temperature, all defined on one interval of temperatures.
pub struct MaterialModel {
    /// A liquid has a viscosity, a solid has none.
    pub dynamic_viscosity: Option<Table>,
    pub density: Table,
    pub specific_heat_capacity: Table,
    pub thermal_conductivity: Table,
    pub specific_enthalpy: Table,
}

impl MaterialModel {
    pub open spec fn wf(self) -> bool {
        &&& self.density.wf()
        &&& self.specific_heat_capacity.wf()
        &&& self.thermal_conductivity.wf()
        &&& self.specific_enthalpy.wf()
        &&& self.density.same_domain(self.specific_enthalpy)
        &&& self.specific_heat_capacity.same_domain(self.specific_enthalpy)
        &&& self.thermal_conductivity.same_domain(self.specific_enthalpy)
        &&& self.specific_enthalpy.invertible()
        &&& self.specific_enthalpy.resolving()
        &&& self.thermal_conductivity.positive()
        &&& self.dynamic_viscosity matches Some(viscosity) ==> viscosity.wf()
            && viscosity.same_domain(self.specific_enthalpy)
    }

    pub open spec fn is_liquid(self) -> bool {
        self.dynamic_viscosity is Some
    }

    /// The lowest temperature at which the properties are defined.
    pub open spec fn min_temperature(self) -> int {
        self.specific_enthalpy.lower()
    }

    /// The highest temperature at which the properties are defined.
    pub open spec fn max_temperature(self) -> int {
        self.specific_enthalpy.upper()
    }

    pub open spec fn in_domain(self, temperature: int) -> bool {
        self.min_temperature() <= temperature <= self.max_temperature()
    }

    pub open spec fn density_at(self, temperature: int) -> Result<MassDensity, TuasLibError> {
        self.density.lookup(temperature)
    }

    pub open spec fn specific_heat_capacity_at(self, temperature: int) -> Result<
        SpecificHeatCapacity,
        TuasLibError,
    > {
        self.specific_heat_capacity.lookup(temperature)
    }

    pub open spec fn thermal_conductivity_at(self, temperature: int) -> Result<
        ThermalConductivity,
        TuasLibError,
    > {
        self.thermal_conductivity.lookup(temperature)
    }

    /// The viscosity of a liquid; a solid has none.
    pub open spec fn dynamic_viscosity_at(self, temperature: int) -> Result<
        DynamicViscosity,
        TuasLibError,
    > {
        match self.dynamic_viscosity {
            Some(viscosity) => viscosity.lookup(temperature),
            None => Err(TuasLibError::TypeConversionError),
        }
    }

    /// The Prandtl number of a liquid: specific heat capacity times viscosity
    /// over thermal conductivity. In the units of this library the quotient
    /// of the three numbers is the Prandtl number in millionths.
    pub open spec fn prandtl_at(self, temperature: int) -> Result<Ratio, TuasLibError> {
        match self.dynamic_viscosity {
            Some(viscosity) => if self.in_domain(temperature) {
                quotient(
                    self.specific_heat_capacity.value_at(temperature) * viscosity.value_at(
                        temperature,
                    ),
                    self.thermal_conductivity.value_at(temperature),
                )
            } else {
                Err(TuasLibError::ThermophysicalPropertyTemperatureRangeError)
            },
            None => Err(TuasLibError::TypeConversionError),
        }
    }

    pub open spec fn specific_enthalpy_at(self, temperature: int) -> Result<
        AvailableEnergy,
        TuasLibError,
    > {
        self.specific_enthalpy.lookup(temperature)
    }

    /// The temperature at which the material has the specific enthalpy
    /// `enthalpy`, the inverse of `specific_enthalpy_at`: the highest
    /// temperature at which the specific enthalpy does not exceed
    /// `enthalpy`.
    pub open spec fn temperature_at(self, enthalpy: int) -> Result<
        ThermodynamicTemperature,
        TuasLibError,
    > {
        self.specific_enthalpy.inverse_lookup(enthalpy)
    }

    /// Range enforcement: at a temperature strictly outside the domain of the
    /// material no property has a value. Every property is a range error
    /// there, but for the viscosity and the Prandtl number of a solid, which
    /// has neither at any temperature.
    pub proof fn lemma_no_property_outside_domain(self, temperature: int)
        requires
            self.wf(),
            temperature < self.min_temperature() || temperature > self.max_temperature(),
        ensures
            self.density_at(temperature) == Err::<i64, TuasLibError>(
                TuasLibError::ThermophysicalPropertyTemperatureRangeError,
            ),
            self.specific_heat_capacity_at(temperature) == Err::<i64, TuasLibError>(
                TuasLibError::ThermophysicalPropertyTemperatureRangeError,
            ),
            self.thermal_conductivity_at(temperature) == Err::<i64, TuasLibError>(
                TuasLibError::ThermophysicalPropertyTemperatureRangeError,
            ),
            self.specific_enthalpy_at(temperature) == Err::<i64, TuasLibError>(
                TuasLibError::ThermophysicalPropertyTemperatureRangeError,
            ),
            self.is_liquid() ==> self.dynamic_viscosity_at(temperature) == Err::<i64, TuasLibError>(
                TuasLibError::ThermophysicalPropertyTemperatureRangeError,
            ),
            self.is_liquid() ==> self.prandtl_at(temperature) == Err::<i64, TuasLibError>(
                TuasLibError::ThermophysicalPropertyTemperatureRangeError,
            ),
    {
    }

    /// Within the domain of the material every property but the Prandtl
    /// number has a value, and the Prandtl number of a liquid is no range
    /// error.
    pub proof fn lemma_properties_within_domain(self, temperature: int)
        requires
            self.wf(),
            self.in_domain(temperature),
        ensures
            self.density_at(temperature) is Ok,
            self.specific_heat_capacity_at(temperature) is Ok,
            self.thermal_conductivity_at(temperature) is Ok,
            self.specific_enthalpy_at(temperature) is Ok,
            self.is_liquid() ==> self.dynamic_viscosity_at(temperature) is Ok,
            self.prandtl_at(temperature) != Err::<i64, TuasLibError>(
                TuasLibError::ThermophysicalPropertyTemperatureRangeError,
            ),
            self.thermal_conductivity.value_at(temperature) > 0,
    {
        self.thermal_conductivity.lemma_positive_value(temperature);
    }

    /// A wall temperature moved into the domain lies within it: the
    /// properties at the wall are never extrapolated.
    pub proof fn lemma_clamped_in_domain(self, temperature: int)
        requires
            self.wf(),
        ensures
            self.in_domain(self.clamped(temperature)),
            self.in_domain(temperature) ==> self.clamped(temperature) == temperature,
    {
        assert(self.specific_enthalpy.xs[0] < self.specific_enthalpy.xs[self.specific_enthalpy.xs.len()
            - 1]);
    }

    /// The temperature that belongs to the specific enthalpy of the
    /// material at a temperature of its domain is that temperature.
    pub proof fn lemma_temperature_of_enthalpy(self, temperature: int)
        requires
            self.wf(),
            self.in_domain(temperature),
        ensures
            self.specific_enthalpy_at(temperature) matches Ok(enthalpy) && self.temperature_at(
                enthalpy as int,
            ) == Ok::<i64, TuasLibError>(temperature as i64),
    {
        self.specific_enthalpy.lemma_round_trip(temperature);
        self.specific_enthalpy.lemma_value_within_limit(temperature);
    }

    /// `temperature` moved to the nearest temperature of the domain.
    pub open spec fn clamped(self, temperature: int) -> int {
        if temperature > self.max_temperature() {
            self.max_temperature()
        } else if temperature < self.min_temperature() {
            self.min_temperature()
        } else {
            temperature
        }
    }
}

/// The function that is `value` from `lower` to `upper`.
pub open spec fn constant_table(lower: i64, upper: i64, value: i64) -> Table {
    Table { xs: seq![lower, upper], ys: seq![value, value] }
}

/// The specific enthalpy at `temperature` of a material of constant specific
/// heat capacity, counted from zero degrees Celsius.
pub open spec fn constant_property_enthalpy(
    specific_heat_capacity: SpecificHeatCapacity,
    temperature: ThermodynamicTemperature,
) -> int {
    (specific_heat_capacity * (temperature - ZERO_CELSIUS)) / 1000
}

/// The material whose properties do not depend on the temperature, if its
/// specific enthalpy at both ends of its range is representable.
pub open spec fn constant_properties(
    lower: ThermodynamicTemperature,
    upper: ThermodynamicTemperature,
    density: MassDensity,
    specific_heat_capacity: SpecificHeatCapacity,
    thermal_conductivity: ThermalConductivity,
    dynamic_viscosity: Option<DynamicViscosity>,
) -> Option<MaterialModel> {
    let lower_enthalpy = constant_property_enthalpy(specific_heat_capacity, lower);
    let upper_enthalpy = constant_property_enthalpy(specific_heat_capacity, upper);
    if fits_i64(lower - ZERO_CELSIUS) && fits_i64(upper - ZERO_CELSIUS) && fits_i64(lower_enthalpy)
        && fits_i64(upper_enthalpy) {
        Some(
            MaterialModel {
                dynamic_viscosity: match dynamic_viscosity {
                    Some(viscosity) => Some(constant_table(lower, upper, viscosity)),
                    None => None,
                },
                density: constant_table(lower, upper, density),
                specific_heat_capacity: constant_table(lower, upper, specific_heat_capacity),
                thermal_conductivity: constant_table(lower, upper, thermal_conductivity),
                specific_enthalpy: Table {
                    xs: seq![lower, upper],
                    ys: seq![lower_enthalpy as i64, upper_enthalpy as i64],
                },
            },
        )
    } else {
        None
    }
}

/// A material with its thermophysical properties.
#[derive(Debug, PartialEq)]
pub struct Material {
    dynamic_viscosity: Option<PropertyCurve>,
    density: PropertyCurve,
    specific_heat_capacity: PropertyCurve,
    thermal_conductivity: PropertyCurve,
    specific_enthalpy: PropertyCurve,
}

impl View for Material {
    type V = MaterialModel;

    closed spec fn view(&self) -> MaterialModel {
        MaterialModel {
            dynamic_viscosity: match self.dynamic_viscosity {
                Some(viscosity) => Some(viscosity@),
                None => None,
            },
            density: self.density@,
            specific_heat_capacity: self.specific_heat_capacity@,
            thermal_conductivity: self.thermal_conductivity@,
            specific_enthalpy: self.specific_enthalpy@,
        }
    }
}

/// Whether `temperature` lies within `[lower_temperature_limit,
/// upper_temperature_limit]`: a range error if it lies strictly outside.
pub fn range_check(
    temperature: ThermodynamicTemperature,
    upper_temperature_limit: ThermodynamicTemperature,
    lower_temperature_limit: ThermodynamicTemperature,
) -> (result: Result<bool, TuasLibError>)
    ensures
        result == if lower_temperature_limit <= temperature <= upper_temperature_limit {
            Ok::<bool, TuasLibError>(true)
        } else {
            Err::<bool, TuasLibError>(TuasLibError::ThermophysicalPropertyTemperatureRangeError)
        },
{
    if temperature < lower_temperature_limit {
        return Err(TuasLibError::ThermophysicalPropertyTemperatureRangeError);
    }
    if temperature > upper_temperature_limit {
        return Err(TuasLibError::ThermophysicalPropertyTemperatureRangeError);
    }
    Ok(true)
}

impl Material {
    /// Every material is valid.
    #[verifier::type_invariant]
    pub open spec fn well_formed(self) -> bool {
        self@.wf()
    }

    /// The material with the given property curves, if they make a valid
    /// material: all curves on the same interval of temperatures, the
    /// specific enthalpy increasing by one unit per millikelvin at least (a
    /// specific heat capacity of 1 joule per kilogram and kelvin), so that
    /// every temperature has an enthalpy of its own, and the thermal
    /// conductivity positive. With a viscosity it is a liquid, without one a
    /// solid.
    pub fn new(
        density: PropertyCurve,
        specific_heat_capacity: PropertyCurve,
        thermal_conductivity: PropertyCurve,
        specific_enthalpy: PropertyCurve,
        dynamic_viscosity: Option<PropertyCurve>,
    ) -> (material: Option<Material>)
        ensures
            material is Some <==> (MaterialModel {
                dynamic_viscosity: match dynamic_viscosity {
                    Some(viscosity) => Some(viscosity@),
                    None => None,
                },
                density: density@,
                specific_heat_capacity: specific_heat_capacity@,
                thermal_conductivity: thermal_conductivity@,
                specific_enthalpy: specific_enthalpy@,
            }).wf(),
            material matches Some(m) ==> m@ == (MaterialModel {
                dynamic_viscosity: match dynamic_viscosity {
                    Some(viscosity) => Some(viscosity@),
                    None => None,
                },
                density: density@,
                specific_heat_capacity: specific_heat_capacity@,
                thermal_conductivity: thermal_conductivity@,
                specific_enthalpy: specific_enthalpy@,
            }),
    {
        proof {
            use_type_invariant(&density);
            use_type_invariant(&specific_heat_capacity);
            use_type_invariant(&thermal_conductivity);
            use_type_invariant(&specific_enthalpy);
        }
        let lower: i64 = specific_enthalpy.min_temperature();
        let upper: i64 = specific_enthalpy.max_temperature();
        if density.min_temperature() != lower || density.max_temperature() != upper {
            return None;
        }
        if specific_heat_capacity.min_temperature() != lower
            || specific_heat_capacity.max_temperature() != upper {
            return None;
        }
        if thermal_conductivity.min_temperature() != lower || thermal_conductivity.max_temperature()
            != upper {
            return None;
        }
        if !specific_enthalpy.is_invertible() || !specific_enthalpy.is_resolving()
            || !thermal_conductivity.is_positive() {
            return None;
        }
        match &dynamic_viscosity {
            Some(viscosity) => {
                proof {
                    use_type_invariant(viscosity);
                }
                if viscosity.min_temperature() != lower || viscosity.max_temperature() != upper {
                    return None;
                }
            },
            None => {},
        }
        Some(
            Material {
                dynamic_viscosity,
                density,
                specific_heat_capacity,
                thermal_conductivity,
                specific_enthalpy,
            },
        )
    }

    /// The material whose density, specific heat capacity, thermal
    /// conductivity and, for a liquid, viscosity do not depend on the
    /// temperature, defined from `lower` to `upper`. Its specific enthalpy is
    /// zero at zero degrees Celsius and grows with the specific heat capacity.
    ///
    /// There is no such material unless `lower < upper`, the specific heat
    /// capacity and the thermal conductivity are positive and all numbers lie
    /// within the knot limit.
    pub fn with_constant_properties(
        lower: ThermodynamicTemperature,
        upper: ThermodynamicTemperature,
        density: MassDensity,
        specific_heat_capacity: SpecificHeatCapacity,
        thermal_conductivity: ThermalConductivity,
        dynamic_viscosity: Option<DynamicViscosity>,
    ) -> (material: Option<Material>)
        ensures
            material is Some <==> (constant_properties(
                lower,
                upper,
                density,
                specific_heat_capacity,
                thermal_conductivity,
                dynamic_viscosity,
            ) matches Some(model) && model.wf()),
            material matches Some(m) ==> Some(m@) == constant_properties(
                lower,
                upper,
                density,
                specific_heat_capacity,
                thermal_conductivity,
                dynamic_viscosity,
            ),
    {
        let lower_enthalpy: i64 = match mul_div(
            specific_heat_capacity,
            match lower.checked_sub(ZERO_CELSIUS) {
                Some(d) => d,
                None => {
                    return None;
                },
            },
            1000,
        ) {
            Ok(h) => h,
            Err(_) => {
                return None;
            },
        };
        let upper_enthalpy: i64 = match mul_div(
            specific_heat_capacity,
            match upper.checked_sub(ZERO_CELSIUS) {
                Some(d) => d,
                None => {
                    return None;
                },
            },
            1000,
        ) {
            Ok(h) => h,
            Err(_) => {
                return None;
            },
        };
        let mut temperatures: Vec<i64> = Vec::new();
        temperatures.push(lower);
        temperatures.push(upper);
        let mut enthalpies: Vec<i64> = Vec::new();
        enthalpies.push(lower_enthalpy);
        enthalpies.push(upper_enthalpy);
        assert(temperatures@ == seq![lower, upper]);
        assert(enthalpies@ == seq![lower_enthalpy, upper_enthalpy]);
        let enthalpy_curve = match PropertyCurve::new(temperatures, enthalpies) {
            Some(c) => c,
            None => {
                return None;
            },
        };
        let density_curve = match PropertyCurve::constant(lower, upper, density) {
            Some(c) => c,
            None => {
                return None;
            },
        };
        let heat_capacity_curve = match PropertyCurve::constant(
            lower,
            upper,
            specific_heat_capacity,
        ) {
            Some(c) => c,
            None => {
                return None;
            },
        };
        let conductivity_curve = match PropertyCurve::constant(
            lower,
            upper,
            thermal_conductivity,
        ) {
            Some(c) => c,
            None => {
                return None;
            },
        };
        let viscosity_curve = match dynamic_viscosity {
            Some(viscosity) => match PropertyCurve::constant(lower, upper, viscosity) {
                Some(c) => Some(c),
                None => {
                    return None;
                },
            },
            None => None,
        };
        Material::new(
            density_curve,
            heat_capacity_curve,
            conductivity_curve,
            enthalpy_curve,
            viscosity_curve,
        )
    }

    /// Whether the material is a liquid.
    pub fn is_liquid(&self) -> (liquid: bool)
        ensures
            liquid == self@.is_liquid(),
    {
        proof {
            use_type_invariant(self);
        }
        self.dynamic_viscosity.is_some()
    }

    /// The highest temperature at which the properties are defined.
    pub fn max_temperature(&self) -> (t: ThermodynamicTemperature)
        ensures
            t == self@.max_temperature(),
    {
        proof {
            use_type_invariant(self);
        }
        self.specific_enthalpy.max_temperature()
    }

    /// The lowest temperature at which the properties are defined.
    pub fn min_temperature(&self) -> (t: ThermodynamicTemperature)
        ensures
            t == self@.min_temperature(),
    {
        proof {
            use_type_invariant(self);
        }
        self.specific_enthalpy.min_temperature()
    }

    pub fn try_get_rho(&self, temperature: ThermodynamicTemperature) -> (result: Result<
        MassDensity,
        TuasLibError,
    >)
        ensures
            result == self@.density_at(temperature as int),
    {
        proof {
            use_type_invariant(self);
        }
        self.density.value_at(temperature)
    }

    pub fn try_get_cp(&self, temperature: ThermodynamicTemperature) -> (result: Result<
        SpecificHeatCapacity,
        TuasLibError,
    >)
        ensures
            result == self@.specific_heat_capacity_at(temperature as int),
    {
        proof {
            use_type_invariant(self);
        }
        self.specific_heat_capacity.value_at(temperature)
    }

    pub fn try_get_thermal_conductivity(&self, temperature: ThermodynamicTemperature) -> (result:
        Result<ThermalConductivity, TuasLibError>)
        ensures
            result == self@.thermal_conductivity_at(temperature as int),
    {
        proof {
            use_type_invariant(self);
        }
        self.thermal_conductivity.value_at(temperature)
    }

    pub fn try_get_dynamic_viscosity(&self, temperature: ThermodynamicTemperature) -> (result:
        Result<DynamicViscosity, TuasLibError>)
        ensures
            result == self@.dynamic_viscosity_at(temperature as int),
    {
        proof {
            use_type_invariant(self);
        }
        match &self.dynamic_viscosity {
            Some(viscosity) => viscosity.value_at(temperature),
            None => Err(TuasLibError::TypeConversionError),
        }
    }

    /// The Prandtl number of a liquid. The pressure has no influence on it.
    pub fn try_get_prandtl_liquid(
        &self,
        temperature: ThermodynamicTemperature,
        pressure: Pressure,
    ) -> (result: Result<Ratio, TuasLibError>)
        ensures
            result == self@.prandtl_at(temperature as int),
    {
        proof {
            use_type_invariant(self);
        }
        let viscosity: i64 = match &self.dynamic_viscosity {
            Some(viscosity) => {
                match viscosity.value_at(temperature) {
                    Ok(v) => v,
                    Err(e) => {
                        return Err(e);
                    },
                }
            },
            None => {
                return Err(TuasLibError::TypeConversionError);
            },
        };
        let heat_capacity: i64 = match self.specific_heat_capacity.value_at(temperature) {
            Ok(v) => v,
            Err(e) => {
                return Err(e);
            },
        };
        let conductivity: i64 = match self.thermal_conductivity.value_at(temperature) {
            Ok(v) => v,
            Err(e) => {
                return Err(e);
            },
        };
        mul_div(heat_capacity, viscosity, conductivity)
    }

    pub fn try_get_h(&self, temperature: ThermodynamicTemperature) -> (result: Result<
        AvailableEnergy,
        TuasLibError,
    >)
        ensures
            result == self@.specific_enthalpy_at(temperature as int),
    {
        proof {
            use_type_invariant(self);
        }
        self.specific_enthalpy.value_at(temperature)
    }

    pub fn try_get_temperature_from_h(&self, enthalpy: AvailableEnergy) -> (result: Result<
        ThermodynamicTemperature,
        TuasLibError,
    >)
        ensures
            result == self@.temperature_at(enthalpy as int),
    {
        proof {
            use_type_invariant(self);
        }
        self.specific_enthalpy.temperature_at(enthalpy)
    }

    /// A copy of the material.
    pub fn duplicate(&self) -> (copy: Material)
        ensures
            copy@ == self@,
    {
        proof {
            use_type_invariant(self);
        }
        Material {
            dynamic_viscosity: match &self.dynamic_viscosity {
                Some(viscosity) => Some(viscosity.duplicate()),
                None => None,
            },
            density: self.density.duplicate(),
            specific_heat_capacity: self.specific_heat_capacity.duplicate(),
            thermal_conductivity: self.thermal_conductivity.duplicate(),
            specific_enthalpy: self.specific_enthalpy.duplicate(),
        }
    }
}

impl Clone for Material {
    fn clone(&self) -> (copy: Material)
        ensures
            copy@ == self@,
    {
        self.duplicate()
    }
}

} // verus!
