pub mod darcy_loss_correlations;
pub mod heat_transfer_interactions;
pub mod nusselt_number_correlations;
pub mod thermal_resistance;
