use vstd::prelude::*;

verus! {

// Every physical quantity is a signed integer count of a fixed unit. The units
// are chosen so that the products on the energy path are exact:
//
//   conductance * temperature difference = heat rate   (uW/K * mK = nW)
//   mass rate * specific enthalpy        = heat rate   (mg/s * mJ/kg = nW)
//   heat rate * time                     = energy      (nW * ms = pJ)
//   mass * specific enthalpy             = energy      (ug * mJ/kg = pJ)

/// Thermodynamic temperature, in millikelvin.
pub type ThermodynamicTemperature = i64;

/// Thermal conductance, in microwatt per kelvin.
pub type ThermalConductance = i64;

/// Power, in nanowatt.
pub type Power = i64;

/// A sum of heat rates, in nanowatt.
pub type HeatRate = i128;

/// Time, in milliseconds.
pub type Time = i64;

/// Energy, in picojoule.
pub type Energy = i128;

/// Mass, in microgram.
pub type Mass = i64;

/// Specific enthalpy, in millijoule per kilogram.
pub type AvailableEnergy = i64;

/// Mass flow rate, in milligram per second.
pub type MassRate = i64;

/// Specific heat capacity, in millijoule per kilogram and kelvin.
pub type SpecificHeatCapacity = i64;

/// Mass density, in gram per cubic metre.
pub type MassDensity = i64;

/// Length, in micrometre.
pub type Length = i64;

/// The roughness of a surface, in nanometre.
pub type SurfaceRoughness = i64;

/// Specific power, in milliwatt per kilogram.
pub type SpecificPower = i64;

/// Area, in square micrometre.
pub type Area = i64;

/// Heat transfer coefficient, in microwatt per square metre and kelvin.
pub type HeatTransfer = i64;

/// Heat flux density, in microwatt per square metre.
pub type HeatFluxDensity = i64;

/// Thermal conductivity, in microwatt per metre and kelvin.
pub type ThermalConductivity = i64;

/// Dynamic viscosity, in nanopascal second.
pub type DynamicViscosity = i64;

/// A dimensionless number, in millionths.
pub type Ratio = i64;

/// Pressure, in pascal.
pub type Pressure = i64;

/// One, as a `Ratio`.
pub const RATIO_ONE: i64 = 1_000_000;

/// Zero degrees Celsius, as a `ThermodynamicTemperature`.
pub const ZERO_CELSIUS: i64 = 273_150;

/// One standard atmosphere, as a `Pressure`.
pub const ONE_ATMOSPHERE: i64 = 101_325;

/// The circle constant in billionths, rounded to the nearest.
pub const PI_BILLIONTHS: i64 = 3_141_592_654;

} // verus!
