//! The plugin commands.

use vstd::prelude::*;
use vstd::string::*;

verus! {

/// Which configuration a plugin command edits, as its flags say.
#[derive(Debug)]
pub struct PluginsScopeArgs {
    pub user: bool,
    pub project: bool,
    pub global: bool,
}

/// The configuration that a plugin command edits.
#[derive(Debug, Clone, Copy, PartialEq, Eq, Structural)]
pub enum ConfigurationScope {
    /// None is named.
    Unnamed,
    User,
    Project,
    Global,
    /// More than one is named.
    Invalid,
}

/// The configuration that flags name.
pub open spec fn scope_of(args: PluginsScopeArgs) -> ConfigurationScope {
    let named = (if args.user {
        1int
    } else {
        0
    }) + (if args.project {
        1int
    } else {
        0
    }) + (if args.global {
        1int
    } else {
        0
    });
    if named == 0 {
        ConfigurationScope::Unnamed
    } else if named > 1 {
        ConfigurationScope::Invalid
    } else if args.user {
        ConfigurationScope::User
    } else if args.project {
        ConfigurationScope::Project
    } else {
        ConfigurationScope::Global
    }
}

impl PluginsScopeArgs {
    /// The configuration that the flags name.
    pub fn into_scope(self) -> (r: ConfigurationScope)
        ensures
            r == scope_of(self),
    {
        match (self.user, self.project, self.global) {
            (false, false, false) => ConfigurationScope::Unnamed,
            (true, false, false) => ConfigurationScope::User,
            (false, true, false) => ConfigurationScope::Project,
            (false, false, true) => ConfigurationScope::Global,
            _ => ConfigurationScope::Invalid,
        }
    }
}

#[derive(Debug)]
pub struct PluginsEditCommand {
    pub scope: PluginsScopeArgs,
}

#[derive(Debug)]
pub struct PluginsAddCommand {
    pub scope: PluginsScopeArgs,
    /// A plugin directory or its manifest.
    pub path: String,
}

#[derive(Debug)]
pub struct PluginsValidateCommand {
    /// The id of a plugin, or a plugin directory or its manifest.
    pub target: String,
    pub json: bool,
}

#[derive(Debug)]
pub struct PluginsListCommand {
    /// Whether plugins that were removed are listed too.
    pub all: bool,
    pub json: bool,
}

#[derive(Debug)]
pub struct PluginsInspectCommand {
    pub id: String,
    pub json: bool,
}

#[derive(Debug)]
pub struct PluginsEnableCommand {
    pub id: String,
}

#[derive(Debug)]
pub struct PluginsDisableCommand {
    pub id: String,
}

#[derive(Debug)]
pub struct PluginsRemoveCommand {
    pub id: String,
}

#[derive(Debug)]
pub enum PluginsSubcommand {
    Edit(PluginsEditCommand),
    Add(PluginsAddCommand),
    Validate(PluginsValidateCommand),
    List(PluginsListCommand),
    Inspect(PluginsInspectCommand),
    Enable(PluginsEnableCommand),
    Disable(PluginsDisableCommand),
    Remove(PluginsRemoveCommand),
}

/// What the JSON output of a command is of.
#[derive(Debug)]
pub struct PluginJsonContext<'a> {
    pub command: &'static str,
    pub target: Option<&'a str>,
}

/// What the JSON output of a command is of: its name, and its target where it has one. Commands that were not
/// asked for JSON, or know none, have none.
pub open spec fn json_context_of(command: PluginsSubcommand) -> Option<(Seq<char>, Option<Seq<char>>)> {
    match command {
        PluginsSubcommand::Validate(own) => if own.json {
            Some(("plugins validate"@, Some(own.target@)))
        } else {
            None
        },
        PluginsSubcommand::List(own) => if own.json {
            Some(("plugins list"@, None))
        } else {
            None
        },
        PluginsSubcommand::Inspect(own) => if own.json {
            Some(("plugins inspect"@, Some(own.id@)))
        } else {
            None
        },
        _ => None,
    }
}

impl PluginsSubcommand {
    /// What the JSON output of the command is of.
    pub fn json_context(&self) -> (r: Option<PluginJsonContext<'_>>)
        ensures
            match r {
                Some(context) => json_context_of(*self) == Some(
                    (
                        context.command@,
                        match context.target {
                            Some(target) => Some(target@),
                            None => None,
                        },
                    ),
                ),
                None => json_context_of(*self) is None,
            },
    {
        match self {
            PluginsSubcommand::Validate(command) => {
                if command.json {
                    Some(
                        PluginJsonContext { command: "plugins validate", target: Some(command.target.as_str()) },
                    )
                } else {
                    None
                }
            },
            PluginsSubcommand::List(command) => {
                if command.json {
                    Some(PluginJsonContext { command: "plugins list", target: None })
                } else {
                    None
                }
            },
            PluginsSubcommand::Inspect(command) => {
                if command.json {
                    Some(PluginJsonContext { command: "plugins inspect", target: Some(command.id.as_str()) })
                } else {
                    None
                }
            },
            _ => None,
        }
    }
}

#[derive(Debug)]
pub struct PluginsEditRequest {
    pub scope: ConfigurationScope,
}

#[derive(Debug)]
pub struct PluginsAddRequest {
    pub scope: ConfigurationScope,
    pub path: String,
}

#[derive(Debug)]
pub struct PluginsValidateRequest {
    pub target: String,
    pub json: bool,
}

#[derive(Debug)]
pub struct PluginsListRequest {
    pub all: bool,
    pub json: bool,
}

#[derive(Debug)]
pub struct PluginsInspectRequest {
    pub id: String,
    pub json: bool,
}

#[derive(Debug)]
pub struct PluginsEnableRequest {
    pub id: String,
}

#[derive(Debug)]
pub struct PluginsDisableRequest {
    pub id: String,
}

#[derive(Debug)]
pub struct PluginsRemoveRequest {
    pub id: String,
}

impl PluginsEditCommand {
    pub fn into_runtime(self) -> (r: PluginsEditRequest)
        ensures
            r == (PluginsEditRequest { scope: scope_of(self.scope) }),
    {
        PluginsEditRequest { scope: self.scope.into_scope() }
    }
}

impl PluginsAddCommand {
    pub fn into_runtime(self) -> (r: PluginsAddRequest)
        ensures
            r == (PluginsAddRequest { scope: scope_of(self.scope), path: self.path }),
    {
        PluginsAddRequest { scope: self.scope.into_scope(), path: self.path }
    }
}

impl PluginsValidateCommand {
    pub fn into_runtime(self) -> (r: PluginsValidateRequest)
        ensures
            r == (PluginsValidateRequest { target: self.target, json: self.json }),
    {
        PluginsValidateRequest { target: self.target, json: self.json }
    }
}

impl PluginsListCommand {
    pub fn into_runtime(self) -> (r: PluginsListRequest)
        ensures
            r == (PluginsListRequest { all: self.all, json: self.json }),
    {
        PluginsListRequest { all: self.all, json: self.json }
    }
}

impl PluginsInspectCommand {
    pub fn into_runtime(self) -> (r: PluginsInspectRequest)
        ensures
            r == (PluginsInspectRequest { id: self.id, json: self.json }),
    {
        PluginsInspectRequest { id: self.id, json: self.json }
    }
}

impl PluginsEnableCommand {
    pub fn into_runtime(self) -> (r: PluginsEnableRequest)
        ensures
            r == (PluginsEnableRequest { id: self.id }),
    {
        PluginsEnableRequest { id: self.id }
    }
}

impl PluginsDisableCommand {
    pub fn into_runtime(self) -> (r: PluginsDisableRequest)
        ensures
            r == (PluginsDisableRequest { id: self.id }),
    {
        PluginsDisableRequest { id: self.id }
    }
}

impl PluginsRemoveCommand {
    pub fn into_runtime(self) -> (r: PluginsRemoveRequest)
        ensures
            r == (PluginsRemoveRequest { id: self.id }),
    {
        PluginsRemoveRequest { id: self.id }
    }
}

} // verus!
