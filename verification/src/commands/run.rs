//! The commands that run an agent.

use crate::text::{opt_str, opt_text};
use vstd::prelude::*;
use vstd::string::*;

verus! {

/// An agent that commands name.
#[derive(Debug, Clone, Copy, PartialEq, Eq, Structural)]
pub enum CodingAgent {
    ClaudeCode,
    Codex,
    Hermes,
}

/// What `run` was asked for.
#[derive(Debug)]
pub struct RunCommand {
    pub agent: Option<CodingAgent>,
    pub config: Option<String>,
    pub openai_base_url: Option<String>,
    pub anthropic_base_url: Option<String>,
    pub session_metadata: Option<String>,
    pub plugin_config_path: Option<String>,
    pub dry_run: bool,
    pub print: bool,
    pub command: Vec<String>,
}

/// What a run overrides.
#[derive(Debug)]
pub struct RunOverrides {
    pub agent: Option<CodingAgent>,
    pub config: Option<String>,
    pub openai_base_url: Option<String>,
    pub anthropic_base_url: Option<String>,
    pub session_metadata: Option<String>,
    pub plugin_config_path: Option<String>,
    pub dry_run: bool,
    pub print: bool,
    pub command: Vec<String>,
}

impl RunCommand {
    pub fn into_runtime(self) -> (r: RunOverrides)
        ensures
            r == (RunOverrides {
                agent: self.agent,
                config: self.config,
                openai_base_url: self.openai_base_url,
                anthropic_base_url: self.anthropic_base_url,
                session_metadata: self.session_metadata,
                plugin_config_path: self.plugin_config_path,
                dry_run: self.dry_run,
                print: self.print,
                command: self.command,
            }),
    {
        RunOverrides {
            agent: self.agent,
            config: self.config,
            openai_base_url: self.openai_base_url,
            anthropic_base_url: self.anthropic_base_url,
            session_metadata: self.session_metadata,
            plugin_config_path: self.plugin_config_path,
            dry_run: self.dry_run,
            print: self.print,
            command: self.command,
        }
    }
}

/// Whether the shortcut for an agent sets the relay up first: only where no configuration is named and none is
/// found.
pub fn needs_setup(explicit_config: Option<&str>, any_config_exists: bool) -> (r: bool)
    ensures
        r == (explicit_config is None && !any_config_exists),
{
    explicit_config.is_none() && !any_config_exists
}

/// What the shortcut for an agent runs: the agent with this command, and nothing overridden but the
/// configuration that is named.
pub fn easy_path(agent: CodingAgent, command: Vec<String>, explicit_config: Option<&str>) -> (r: RunOverrides)
    ensures
        r.agent == Some(agent),
        opt_text(r.config) == opt_str(explicit_config),
        r.openai_base_url is None,
        r.anthropic_base_url is None,
        r.session_metadata is None,
        r.plugin_config_path is None,
        !r.dry_run,
        !r.print,
        r.command@ == command@,
{
    RunOverrides {
        agent: Some(agent),
        config: match explicit_config {
            Some(path) => Some(path.to_owned()),
            None => None,
        },
        openai_base_url: None,
        anthropic_base_url: None,
        session_metadata: None,
        plugin_config_path: None,
        dry_run: false,
        print: false,
        command,
    }
}

/// The configuration that `config --reset` resets.
#[derive(Debug, Clone, Copy, PartialEq, Eq, Structural)]
pub enum ConfigScope {
    Project,
    User,
    Global,
}

/// What `config` does: it resets a configuration, the project's where none is named, or asks for a new one.
pub fn configured_reset(reset: bool, scope: Option<ConfigScope>) -> (r: Option<ConfigScope>)
    ensures
        r == (if !reset {
            None
        } else {
            match scope {
                Some(scope) => Some(scope),
                None => Some(ConfigScope::Project),
            }
        }),
{
    if !reset {
        None
    } else {
        match scope {
            Some(scope) => Some(scope),
            None => Some(ConfigScope::Project),
        }
    }
}

} // verus!
