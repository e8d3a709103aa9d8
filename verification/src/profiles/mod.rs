//! Profiles that tighten a policy and add guidelines.

pub mod cache;
pub mod files;
pub mod graph;
pub mod laws;
pub mod model;
pub mod order;
pub mod payload;
pub mod perf;
pub mod resolve;
