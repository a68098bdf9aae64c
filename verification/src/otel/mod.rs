//! Export of lifecycle events as trace spans.

pub mod attributes;
pub mod config;
pub mod event;
pub mod laws;
pub mod metadata;
pub mod spans;
