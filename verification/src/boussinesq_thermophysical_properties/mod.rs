pub mod material;
pub mod property_curve;
pub mod solid_database;
