//! Layered settings.

pub mod laws;
pub mod layers;
pub mod merge;
pub mod model;
pub mod write;
pub mod write_laws;
