//! What the commands ask of the rest of the relay.

pub mod diagnostics;
pub mod plugins;
pub mod run;
