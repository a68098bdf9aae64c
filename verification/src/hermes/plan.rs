//! What an installation and a removal write.

use crate::error::{CliError, Failure};
use crate::hermes::config::{
    expected_mcp_server, expected_server, find_relay_server, install_in_config, installed, keep_groups, kept_groups,
    owned_command, owned_install_command, parse_yaml_object, relay_server, remove_owned_mcp, strip_owned_hooks,
    stripped, without_server, yaml_object, yaml_string, HermesProfile,
};
use crate::hermes::hooks::{persistent_command, persistent_hook_command};
use crate::hermes::integration::{
    check_hook_trust, configured_command, hook_trust_error, owned_command_from_config, server_is_plain,
};
use crate::hermes::paths::PersistentPaths;
use crate::hermes::trust::{approve_hooks, json_string, json_text_object, parse_json_object, trusted};
use crate::ids::{fresh_uuid, uuid_text};
use crate::json::{
    array_holds, array_view, json_pretty_text, same_json, yaml_text, Json, JsonObject, JsonView, Members,
};
use crate::ordered::{inserted, lookup, removed, removed_absent};
use crate::switchyard::config::answers;
use crate::text::{opt_str, opt_text, same_text, texts};
use vstd::prelude::*;
use vstd::string::*;

verus! {

/// What an installation writes.
#[derive(Debug)]
pub struct InstallPlan {
    /// The command of its hooks.
    pub command: String,
    /// The token of its generation.
    pub token: String,
    pub generation: String,
    pub allowlist: String,
    pub config: String,
}

/// When the hooks of an installation are approved, and when its relay was last changed.
#[derive(Debug)]
pub struct ApprovalTime {
    pub approved_at: String,
    pub script_mtime: Option<String>,
}

/// The allowlist and the configuration that an installation writes.
pub open spec fn install_texts(
    profile: HermesProfile,
    generation: Seq<char>,
    relay: Seq<char>,
    environment: Seq<Seq<char>>,
    config: Option<Seq<char>>,
    allowlist: Option<Seq<char>>,
    token: Seq<char>,
    time: ApprovalTime,
) -> Result<(Seq<char>, Seq<char>), Seq<char>> {
    let command = persistent_command(profile.platform, relay, generation, token);
    match yaml_object(config, "Hermes config"@) {
        Err(error) => Err(error),
        Ok(root) => match installed(profile, root, relay, command, generation, token, environment) {
            Err(error) => Err(error),
            Ok(with_relay) => match json_text_object(allowlist, "Hermes shell-hook allowlist"@) {
                Err(error) => Err(error),
                Ok(approvals) => match trusted(
                    approvals,
                    texts(profile.hook_events@),
                    owned_command(profile, root, relay, Some(generation)),
                    command,
                    time.approved_at@,
                    opt_text(time.script_mtime),
                ) {
                    Err(error) => Err(error),
                    Ok(approved) => match yaml_text(JsonView::Object(with_relay)) {
                        Err(error) => Err(error),
                        Ok(config_text) => match json_pretty_text(JsonView::Object(approved)) {
                            Err(error) => Err(error),
                            Ok(allowlist_text) => Ok((allowlist_text + "\n"@, config_text)),
                        },
                    },
                },
            },
        },
    }
}

/// Whether `r` is what an installation with this token writes.
pub open spec fn planned(
    r: Result<InstallPlan, CliError>,
    profile: HermesProfile,
    generation: Seq<char>,
    relay: Seq<char>,
    environment: Seq<Seq<char>>,
    config: Option<Seq<char>>,
    allowlist: Option<Seq<char>>,
    token: Seq<char>,
    time: ApprovalTime,
) -> bool {
    let written = install_texts(profile, generation, relay, environment, config, allowlist, token, time);
    match r {
        Ok(plan) => {
            &&& plan.command@ == persistent_command(profile.platform, relay, generation, token)
            &&& plan.token@ == token
            &&& plan.generation@ == token + "\n"@
            &&& written == Ok::<(Seq<char>, Seq<char>), Seq<char>>((plan.allowlist@, plan.config@))
        },
        Err(error) => written is Err && error.view() == Failure::Install(written->Err_0),
    }
}

/// Plans an installation whose generation has this token. `config` and `allowlist` are what the files hold,
/// where they exist.
pub fn plan_install(
    profile: &HermesProfile,
    paths: &PersistentPaths,
    relay: &str,
    environment: &Vec<String>,
    config: Option<&str>,
    allowlist: Option<&str>,
    token: String,
    time: &ApprovalTime,
) -> (r: Result<InstallPlan, CliError>)
    ensures
        planned(
            r,
            *profile,
            paths.generation@,
            relay@,
            texts(environment@),
            opt_str(config),
            opt_str(allowlist),
            token@,
            *time,
        ),
{
    let generation = paths.generation.as_str();
    let root = match parse_yaml_object(config, "Hermes config") {
        Err(error) => {
            return Err(error);
        },
        Ok(root) => root,
    };
    let previous = owned_install_command(profile, &root, relay, Some(generation));
    let command = persistent_hook_command(&profile.platform, relay, generation, token.as_str());
    let with_relay = match install_in_config(
        profile,
        root,
        relay,
        command.as_str(),
        generation,
        token.as_str(),
        environment,
    ) {
        Err(error) => {
            return Err(error);
        },
        Ok(with_relay) => with_relay,
    };
    let approvals = match parse_json_object(allowlist, "Hermes shell-hook allowlist") {
        Err(error) => {
            return Err(error);
        },
        Ok(approvals) => approvals,
    };
    let own: Option<&str> = match &previous {
        Some(s) => Some(s.as_str()),
        None => None,
    };
    let approved = match approve_hooks(
        approvals,
        &profile.hook_events,
        own,
        command.as_str(),
        time.approved_at.as_str(),
        &time.script_mtime,
    ) {
        Err(error) => {
            return Err(error);
        },
        Ok(approved) => approved,
    };
    let config_text = match yaml_string(with_relay) {
        Err(error) => {
            return Err(error);
        },
        Ok(text) => text,
    };
    let allowlist_text = match json_string(approved) {
        Err(error) => {
            return Err(error);
        },
        Ok(text) => text,
    };
    Ok(
        InstallPlan {
            command,
            generation: token.clone().concat("\n"),
            token,
            allowlist: allowlist_text,
            config: config_text,
        },
    )
}

/// A token that no generation had before.
pub fn fresh_token() -> (r: String)
    ensures
        uuid_text(r@),
{
    fresh_uuid()
}

/// Plans an installation with a fresh token.
pub fn plan_fresh_install(
    profile: &HermesProfile,
    paths: &PersistentPaths,
    relay: &str,
    environment: &Vec<String>,
    config: Option<&str>,
    allowlist: Option<&str>,
    time: &ApprovalTime,
) -> (r: Result<InstallPlan, CliError>)
    ensures
        exists|token: Seq<char>|
            uuid_text(token) && #[trigger] planned(
                r,
                *profile,
                paths.generation@,
                relay@,
                texts(environment@),
                opt_str(config),
                opt_str(allowlist),
                token,
                *time,
            ),
{
    let token = fresh_token();
    let ghost text = token@;
    let r = plan_install(profile, paths, relay, environment, config, allowlist, token, time);
    assert(planned(
        r,
        *profile,
        paths.generation@,
        relay@,
        texts(environment@),
        opt_str(config),
        opt_str(allowlist),
        text,
        *time,
    ));
    r
}

/// What is wrong with an installation right after it was written.
pub open spec fn install_error(
    profile: HermesProfile,
    paths: PersistentPaths,
    relay: Seq<char>,
    command: Seq<char>,
    environment: Seq<Seq<char>>,
    token: Seq<char>,
    config: Result<String, String>,
    allowlist: Result<String, String>,
    visible_token: Result<String, String>,
) -> Option<Seq<char>> {
    match config {
        Err(error) => Some("failed to verify "@ + paths.config@ + ": "@ + error@),
        Ok(raw) => match yaml_object(Some(raw@), "Hermes config"@) {
            Err(error) => Some(error),
            Ok(root) => if relay_server(root) != Some(
                expected_server(profile, relay, paths.generation@, token, environment),
            ) {
                Some("Hermes MCP server did not persist exactly"@)
            } else {
                match hook_trust_error(root, texts(profile.hook_events@), command, allowlist, paths.allowlist@) {
                    Some(error) => Some(error),
                    None => match visible_token {
                        Err(error) => Some(error@),
                        Ok(visible) => if visible@ != token {
                            Some("Hermes MCP generation did not persist exactly"@)
                        } else {
                            None
                        },
                    },
                }
            },
        },
    }
}

/// Checks an installation right after it was written: its server, its hooks and their approvals, and the
/// token of the generation that can be seen.
pub fn verify_install(
    profile: &HermesProfile,
    paths: &PersistentPaths,
    relay: &str,
    command: &str,
    environment: &Vec<String>,
    token: &str,
    config: &Result<String, String>,
    allowlist: &Result<String, String>,
    visible_token: &Result<String, String>,
) -> (r: Result<(), String>)
    ensures
        answers(
            r,
            install_error(
                *profile,
                *paths,
                relay@,
                command@,
                texts(environment@),
                token@,
                *config,
                *allowlist,
                *visible_token,
            ),
        ),
{
    let raw = match config {
        Err(error) => {
            return Err(
                "failed to verify ".to_owned().concat(paths.config.as_str()).concat(": ").concat(error.as_str()),
            );
        },
        Ok(raw) => raw,
    };
    let root = match parse_yaml_object(Some(raw.as_str()), "Hermes config") {
        Err(error) => {
            return Err(error.message().to_owned());
        },
        Ok(root) => root,
    };
    let expected = expected_mcp_server(profile, relay, paths.generation.as_str(), token, environment);
    proof {
        server_is_plain(*profile, relay@, paths.generation@, token@, texts(environment@));
    }
    let persisted = match find_relay_server(&root) {
        Some(server) => same_json(server, &expected),
        None => false,
    };
    if !persisted {
        return Err("Hermes MCP server did not persist exactly".to_owned());
    }
    match check_hook_trust(&root, &profile.hook_events, command, allowlist, paths.allowlist.as_str()) {
        Err(error) => {
            return Err(error);
        },
        Ok(_) => {},
    }
    match visible_token {
        Err(error) => Err(error.clone()),
        Ok(visible) => {
            if !same_text(visible.as_str(), token) {
                Err("Hermes MCP generation did not persist exactly".to_owned())
            } else {
                Ok(())
            }
        },
    }
}

/// A configuration without the installation that it holds.
pub open spec fn uninstalled(profile: HermesProfile, root: Members, generation: Seq<char>) -> Result<
    Members,
    Seq<char>,
> {
    let owned = configured_command(profile, root, Some(generation));
    match stripped(root, owned) {
        Err(error) => Err(error),
        Ok(bare) => without_server(bare, owned is Some),
    }
}

/// Takes the installation out of a configuration, and tells the command of its hooks.
pub fn uninstall_from_config(profile: &HermesProfile, root: JsonObject, generation: &str) -> (r: (
    Result<JsonObject, CliError>,
    Option<String>,
))
    ensures
        ({
            let result = uninstalled(*profile, root.view(), generation@);
            match r.0 {
                Ok(object) => result == Ok::<Members, Seq<char>>(object.view()),
                Err(error) => result is Err && error.view() == Failure::Install(result->Err_0),
            }
        }),
        opt_text(r.1) == configured_command(*profile, root.view(), Some(generation@)),
{
    let owned = owned_command_from_config(profile, &root, Some(generation));
    let own: Option<&str> = match &owned {
        Some(s) => Some(s.as_str()),
        None => None,
    };
    let is_owned = owned.is_some();
    let left = match strip_owned_hooks(root, own) {
        Err(error) => Err(error),
        Ok(bare) => remove_owned_mcp(bare, is_owned),
    };
    (left, owned)
}

/// An allowlist without the approvals of a command; it keeps no list of them that is empty.
pub open spec fn disapproved(root: Members, command: Option<Seq<char>>) -> Result<Members, Seq<char>> {
    match lookup(root, "approvals"@) {
        None => Ok(root),
        Some(JsonView::Array(approvals)) => {
            let kept = kept_groups(approvals, command, approvals.len() as int);
            if kept.len() == 0 {
                Ok(removed(root, "approvals"@))
            } else {
                Ok(inserted(removed(root, "approvals"@), "approvals"@, JsonView::Array(kept)))
            }
        },
        Some(_) => Err("Hermes shell-hook allowlist approvals must be an array"@),
    }
}

/// Takes the approvals of a command out of an allowlist.
pub fn disapprove_hooks(root: JsonObject, command: Option<&str>) -> (r: Result<JsonObject, CliError>)
    ensures
        ({
            let result = disapproved(root.view(), opt_str(command));
            match r {
                Ok(object) => result == Ok::<Members, Seq<char>>(object.view()),
                Err(error) => result is Err && error.view() == Failure::Install(result->Err_0),
            }
        }),
{
    let mut root = root;
    let ghost before = root.view();
    match root.take("approvals") {
        None => {
            proof {
                removed_absent(before, "approvals"@);
            }
            Ok(root)
        },
        Some(Json::Array(approvals)) => {
            proof {
                array_holds(approvals);
            }
            let kept = keep_groups(&approvals, command);
            assert(array_view(kept@).len() == kept@.len());
            if kept.len() > 0 {
                proof {
                    array_holds(kept);
                }
                root.insert("approvals".to_owned(), Json::Array(kept));
            }
            Ok(root)
        },
        Some(_) => Err(
            CliError::Install("Hermes shell-hook allowlist approvals must be an array".to_owned()),
        ),
    }
}

/// What a removal writes: the text of each file, or nothing where the file goes, and the command whose hooks
/// were taken out.
#[derive(Debug)]
pub struct UninstallPlan {
    pub config: Option<String>,
    pub allowlist: Option<String>,
    pub owned: Option<String>,
}

/// The command whose hooks a removal takes out.
pub open spec fn removed_command(profile: HermesProfile, config: Option<Seq<char>>, generation: Seq<char>) -> Option<
    Seq<char>,
> {
    match config {
        Some(raw) => match yaml_object(Some(raw), "Hermes config"@) {
            Ok(root) => configured_command(profile, root, Some(generation)),
            Err(_) => None,
        },
        None => None,
    }
}

/// The configuration that a removal leaves.
pub open spec fn left_config(profile: HermesProfile, config: Option<Seq<char>>, generation: Seq<char>) -> Result<
    Option<Seq<char>>,
    Seq<char>,
> {
    match config {
        None => Ok(None),
        Some(raw) => match yaml_object(Some(raw), "Hermes config"@) {
            Err(error) => Err(error),
            Ok(root) => match uninstalled(profile, root, generation) {
                Err(error) => Err(error),
                Ok(left) => if left.len() == 0 {
                    Ok(None)
                } else {
                    match yaml_text(JsonView::Object(left)) {
                        Err(error) => Err(error),
                        Ok(text) => Ok(Some(text)),
                    }
                },
            },
        },
    }
}

/// The allowlist that a removal leaves.
pub open spec fn left_allowlist(allowlist: Option<Seq<char>>, command: Option<Seq<char>>) -> Result<
    Option<Seq<char>>,
    Seq<char>,
> {
    match allowlist {
        None => Ok(None),
        Some(raw) => match json_text_object(Some(raw), "Hermes shell-hook allowlist"@) {
            Err(error) => Err(error),
            Ok(root) => match disapproved(root, command) {
                Err(error) => Err(error),
                Ok(left) => if left.len() == 0 {
                    Ok(None)
                } else {
                    match json_pretty_text(JsonView::Object(left)) {
                        Err(error) => Err(error),
                        Ok(text) => Ok(Some(text + "\n"@)),
                    }
                },
            },
        },
    }
}

fn plan_config(profile: &HermesProfile, config: Option<&str>, generation: &str) -> (r: Result<
    (Option<String>, Option<String>),
    CliError,
>)
    ensures
        ({
            let left = left_config(*profile, opt_str(config), generation@);
            match r {
                Ok(plan) => left == Ok::<Option<Seq<char>>, Seq<char>>(opt_text(plan.0)) && opt_text(plan.1)
                    == removed_command(*profile, opt_str(config), generation@),
                Err(error) => left is Err && error.view() == Failure::Install(left->Err_0),
            }
        }),
{
    let raw = match config {
        None => {
            return Ok((None, None));
        },
        Some(raw) => raw,
    };
    let root = match parse_yaml_object(Some(raw), "Hermes config") {
        Err(error) => {
            return Err(error);
        },
        Ok(root) => root,
    };
    let (left, owned) = uninstall_from_config(profile, root, generation);
    match left {
        Err(error) => Err(error),
        Ok(left) => {
            if left.len() == 0 {
                return Ok((None, owned));
            }
            match yaml_string(left) {
                Err(error) => Err(error),
                Ok(text) => Ok((Some(text), owned)),
            }
        },
    }
}

fn plan_allowlist(allowlist: Option<&str>, command: Option<&str>) -> (r: Result<Option<String>, CliError>)
    ensures
        ({
            let left = left_allowlist(opt_str(allowlist), opt_str(command));
            match r {
                Ok(plan) => left == Ok::<Option<Seq<char>>, Seq<char>>(opt_text(plan)),
                Err(error) => left is Err && error.view() == Failure::Install(left->Err_0),
            }
        }),
{
    let raw = match allowlist {
        None => {
            return Ok(None);
        },
        Some(raw) => raw,
    };
    let root = match parse_json_object(Some(raw), "Hermes shell-hook allowlist") {
        Err(error) => {
            return Err(error);
        },
        Ok(root) => root,
    };
    match disapprove_hooks(root, command) {
        Err(error) => Err(error),
        Ok(left) => {
            if left.len() == 0 {
                return Ok(None);
            }
            match json_string(left) {
                Err(error) => Err(error),
                Ok(text) => Ok(Some(text)),
            }
        },
    }
}

/// Plans a removal. `config` and `allowlist` are what the files hold, where they exist.
pub fn plan_uninstall(
    profile: &HermesProfile,
    paths: &PersistentPaths,
    config: Option<&str>,
    allowlist: Option<&str>,
) -> (r: Result<UninstallPlan, CliError>)
    ensures
        ({
            let owned = removed_command(*profile, opt_str(config), paths.generation@);
            let config_left = left_config(*profile, opt_str(config), paths.generation@);
            let allowlist_left = left_allowlist(opt_str(allowlist), owned);
            match r {
                Ok(plan) => {
                    &&& config_left == Ok::<Option<Seq<char>>, Seq<char>>(opt_text(plan.config))
                    &&& allowlist_left == Ok::<Option<Seq<char>>, Seq<char>>(opt_text(plan.allowlist))
                    &&& opt_text(plan.owned) == owned
                },
                Err(error) => match config_left {
                    Err(text) => error.view() == Failure::Install(text),
                    Ok(_) => allowlist_left is Err && error.view() == Failure::Install(allowlist_left->Err_0),
                },
            }
        }),
{
    let (config, owned) = match plan_config(profile, config, paths.generation.as_str()) {
        Err(error) => {
            return Err(error);
        },
        Ok(plan) => plan,
    };
    let own: Option<&str> = match &owned {
        Some(s) => Some(s.as_str()),
        None => None,
    };
    match plan_allowlist(allowlist, own) {
        Err(error) => Err(error),
        Ok(allowlist) => Ok(UninstallPlan { config, allowlist, owned }),
    }
}

} // verus!
