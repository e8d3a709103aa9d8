//! Values that the parts of the library exchange.

pub mod commands;
pub mod config;
pub mod laws;
pub mod profile;
pub mod templating;
pub mod time;
pub mod tool;
pub mod workflows;
