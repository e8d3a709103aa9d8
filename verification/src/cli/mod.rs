//! What the commands decide, apart from reading, asking and printing.

pub mod bundles;
pub mod drafts;
pub mod explain;
pub mod laws;
pub mod prompts;
pub mod registry;
pub mod runs;
pub mod scope;
pub mod select;
pub mod settings;
