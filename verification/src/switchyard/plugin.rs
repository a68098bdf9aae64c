//! The routing plugin as the relay's plugin registry sees it.

use crate::switchyard::config::SWITCHYARD_PLUGIN_KIND;
use crate::text::{holds, holds_text, opt_text};
use vstd::prelude::*;
use vstd::string::*;

verus! {

/// Why the registry did not do what it was asked.
#[derive(Debug)]
pub enum PluginError {
    /// The configuration is refused.
    InvalidConfig(String),
    /// A kind could not be registered.
    RegistrationFailed(String),
    /// Something else went wrong.
    Other(String),
}

/// Whether the registry refused a kind because it has it already.
pub open spec fn is_known_already(error: PluginError) -> bool {
    match error {
        PluginError::RegistrationFailed(message) => holds(message@, "already registered"@),
        _ => false,
    }
}

/// What registering the plugin comes to, given what the registry answered: that it is registered already is no
/// failure.
pub fn register_switchyard_component(registered: Result<(), PluginError>) -> (r: Result<(), PluginError>)
    ensures
        match registered {
            Ok(_) => r is Ok,
            Err(error) => if is_known_already(error) {
                r is Ok
            } else {
                r == Err::<(), PluginError>(error)
            },
        },
{
    match registered {
        Ok(_) => Ok(()),
        Err(PluginError::RegistrationFailed(message)) => {
            if holds_text(message.as_str(), "already registered") {
                Ok(())
            } else {
                Err(PluginError::RegistrationFailed(message))
            }
        },
        Err(error) => Err(error),
    }
}

/// How grave what is told of a configuration is.
#[derive(Clone, Copy, Debug, PartialEq, Eq, Structural)]
pub enum DiagnosticLevel {
    Warning,
    Error,
}

/// What is told of a configuration.
#[derive(Debug)]
pub struct ConfigDiagnostic {
    pub level: DiagnosticLevel,
    pub code: String,
    pub component: Option<String>,
    /// The field that it is about, where it is about one.
    pub field: Option<String>,
    pub message: String,
}

/// What is told of a configuration: nothing where a runtime can be made of it, else the one error.
pub fn validate<T>(ready: Result<T, String>) -> (r: Vec<ConfigDiagnostic>)
    ensures
        match ready {
            Ok(_) => r@.len() == 0,
            Err(error) => {
                &&& r@.len() == 1
                &&& r@[0].level == DiagnosticLevel::Error
                &&& r@[0].code@ == "switchyard.invalid_config"@
                &&& opt_text(r@[0].component) == Some(SWITCHYARD_PLUGIN_KIND@)
                &&& r@[0].field is None
                &&& r@[0].message@ == error@
            },
        },
{
    match ready {
        Ok(_) => Vec::new(),
        Err(error) => {
            let told: Vec<ConfigDiagnostic> = vec![
                ConfigDiagnostic {
                    level: DiagnosticLevel::Error,
                    code: "switchyard.invalid_config".to_owned(),
                    component: Some(SWITCHYARD_PLUGIN_KIND.to_owned()),
                    field: None,
                    message: error,
                },
            ];
            told
        },
    }
}

} // verus!
