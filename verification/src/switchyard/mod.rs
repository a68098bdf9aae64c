//! Routing of model calls by an outside decision service.

pub mod atof;
pub mod call;
pub mod config;
pub mod config_laws;
pub mod contract;
pub mod decision;
pub mod failure;
pub mod headers;
pub mod laws;
pub mod libsy;
pub mod marks;
pub mod plugin;
pub mod request;
pub mod request_laws;
pub mod routing;
pub mod runtime;
pub mod stream;
