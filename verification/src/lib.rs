//! Policies, profiles, pipelines, workflows, templates and settings around a coding agent.

pub mod advisor;
pub mod attach;
pub mod audit;
pub mod cli;
pub mod config;
pub mod digest;
pub mod error_laws;
pub mod hooks;
pub mod json;
pub mod mru;
pub mod number;
pub mod path_laws;
pub mod paths;
pub mod pattern;
pub mod pipelines;
pub mod plan_laws;
pub mod policy;
pub mod profiles;
pub mod record_laws;
pub mod repo_ops;
pub mod runtime;
pub mod session_laws;
pub mod strmap;
pub mod template_laws;
pub mod templates;
pub mod text;
pub mod tomlvalue;
pub mod types;
pub mod updater;
pub mod workflows;
pub mod yaml;
