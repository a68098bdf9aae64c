//! The integration with the Hermes agent.

pub mod hooks;
pub mod hook_laws;
pub mod paths;
pub mod path_laws;
pub mod config;
pub mod config_laws;
pub mod trust;
pub mod trust_laws;
pub mod integration;
pub mod plan;
pub mod prefix;
pub mod transaction;
pub mod alignment;
pub mod alignment_laws;
pub mod generation;
pub mod launch;
pub mod laws;
