//! A control volume solver for the temperatures of fluids and solids in a
//! loop of pipes, heaters and heat exchangers.
//!
//! Nodes hold enthalpy; arrays of nodes make up the layers of a component;
//! components link their layers laterally and their ends axially; a step of
//! explicit Euler advances the enthalpy of every node and derives its
//! temperature anew. Links hold for one step.
//!
//! Every quantity is an integer count of a fixed unit (see `units`), and all
//! arithmetic is exact: a result is the stated value or an error, never a
//! rounded guess. Curve fits, correlations with fractional powers and
//! logarithms are not part of the library: their results are handed to it.

pub mod array_control_vol;
pub mod boundary_conditions;
pub mod boussinesq_thermophysical_properties;
pub mod fixed_point;
pub mod heat_transfer_correlations;
pub mod pre_built_components;
pub mod single_control_vol;
pub mod tuas_lib_error;
pub mod units;
