pub mod conservation;
pub mod heat_transfer_entities;
pub mod nodalisation;
pub mod one_d_solid_structure;
pub mod insulated_porous_media_fluid_components;
pub mod shell_and_tube_heat_exchanger;
pub mod insulated_pipes_and_fluid_components;
pub mod non_insulated_porous_media_fluid_components;
