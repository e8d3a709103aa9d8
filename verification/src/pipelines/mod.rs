//! Pipelines of parts: expansion of components and stepwise execution.

pub mod engine;
pub mod expand;
pub mod expand_laws;
pub mod laws;
pub mod model;
pub mod run_laws;
