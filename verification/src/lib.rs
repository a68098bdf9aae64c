//! Decision logic of an agent relay.

pub mod bootstrap;
pub mod commands;
pub mod error;
pub mod gateway;
pub mod hermes;
pub mod ids;
pub mod json;
pub mod json_paths;
pub mod laws;
pub mod locks;
pub mod ordered;
pub mod otel;
pub mod sessions;
pub mod snapshots;
pub mod switchyard;
pub mod text;
pub mod text_laws;
pub mod time;
pub mod url;
