//! Workflows that produce, review and revise artifacts.

pub mod engine;
pub mod laws;
pub mod model;
pub mod store;
