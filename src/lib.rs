//! Unit composition for a real-time strategy simulation: the fragments that
//! describe a unit, the catalogue of unit types, identifier allocation, and
//! the pipeline that assembles a unit and its turrets from a spawn request.

pub mod components;
pub mod ids;
pub mod spawner;
pub mod store;
