//! Attaching profiles to templates, pipelines and workflows.

pub mod frontmatter;
pub mod laws;
pub mod refs;
