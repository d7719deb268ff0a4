pub mod column;
pub mod energy_balance;
pub mod fluid_array;
pub mod power_fractions;
pub mod solid_column;
