//! The persistent installation: what of it is there, what an installation and a removal write, and whether
//! they took.

use crate::error::{CliError, Failure};
use crate::hermes::config::{
    expected_server, find_relay_server, make_server_environment, owned_command, owned_install_command,
    parse_yaml_object, relay_server, server_env, server_environment, yaml_object, HermesProfile,
};
use crate::hermes::hooks::{
    is_persistent_relay_hook_command, persistent_arguments, persistent_command, persistent_hook_command,
    persistent_looking, DEFAULT_BIND,
};
use crate::hermes::paths::{same_path, same_place, PersistentPaths};
use crate::hermes::trust::{
    hooks_error, json_text_object, parse_json_object, trust_error, verify_hook_definitions, verify_trust,
};
use crate::json::{
    array_holds, array_view, inserted_plain, lookup_plain, members_of_plain, same_json, texts_json, texts_json_plain,
    Json, JsonObject, JsonView, Members,
};
use crate::ordered::lookup;
use crate::switchyard::config::answers;
use crate::text::{decimal, decimal_text, join_texts, joined, opt_str, opt_text, same_text, texts};
use vstd::prelude::*;
use vstd::string::*;

verus! {

/// What came of reading a file that may be missing.
#[derive(Debug)]
pub enum FileText {
    Text(String),
    Missing,
    /// The file could not be read; the error in words.
    Unreadable(String),
}

/// What a file that may be missing holds, or why that is not known.
pub open spec fn file_text(file: FileText, path: Seq<char>) -> Result<Option<Seq<char>>, Seq<char>> {
    match file {
        FileText::Text(text) => Ok(Some(text@)),
        FileText::Missing => Ok(None),
        FileText::Unreadable(error) => Err("failed to read "@ + path + ": "@ + error@),
    }
}

/// What a file that may be missing holds.
pub fn read_optional_utf8<'a>(file: &'a FileText, path: &str) -> (r: Result<Option<&'a str>, CliError>)
    ensures
        match r {
            Ok(text) => file_text(*file, path@) == Ok::<Option<Seq<char>>, Seq<char>>(opt_str(text)),
            Err(error) => file_text(*file, path@) is Err && error.view() == Failure::Install(
                file_text(*file, path@)->Err_0,
            ),
        },
{
    match file {
        FileText::Text(text) => Ok(Some(text.as_str())),
        FileText::Missing => Ok(None),
        FileText::Unreadable(error) => Err(
            CliError::Install("failed to read ".to_owned().concat(path).concat(": ").concat(error.as_str())),
        ),
    }
}

/// The relay that a configuration's server starts.
pub open spec fn configured_relay(root: Members) -> Option<Seq<char>> {
    match relay_server(root) {
        Some(server) => server.text_at("command"@),
        None => None,
    }
}

/// The hook command of the installation that a configuration holds, of whatever relay its server starts.
pub open spec fn configured_command(
    profile: HermesProfile,
    root: Members,
    expected: Option<Seq<char>>,
) -> Option<Seq<char>> {
    match configured_relay(root) {
        Some(relay) => owned_command(profile, root, relay, expected),
        None => None,
    }
}

/// The hook command of the installation that a configuration holds.
pub fn owned_command_from_config(profile: &HermesProfile, config: &JsonObject, generation: Option<&str>) -> (r: Option<
    String,
>)
    ensures
        opt_text(r) == configured_command(*profile, config.view(), opt_str(generation)),
{
    let relay = match find_relay_server(config) {
        Some(server) => server.text_at("command"),
        None => None,
    };
    match relay {
        Some(relay) => owned_install_command(profile, config, relay, generation),
        None => None,
    }
}

/// Whether a configuration holds an installation.
pub fn config_has_managed_state(profile: &HermesProfile, config: &JsonObject) -> (r: bool)
    ensures
        r == (configured_command(*profile, config.view(), None) is Some),
{
    owned_command_from_config(profile, config, None).is_some()
}

/// The arguments of an encoded command, from place `from` of a table of such commands on.
pub open spec fn decoded_arguments(decoded: Seq<(String, Vec<String>)>, command: Seq<char>, from: int) -> Option<
    Seq<Seq<char>>,
>
    decreases decoded.len() - from,
{
    if from >= decoded.len() {
        None
    } else if decoded[from].0@ == command {
        Some(texts(decoded[from].1@))
    } else {
        decoded_arguments(decoded, command, from + 1)
    }
}

/// Whether a command is the hook of a persistent installation.
pub open spec fn relay_hook(decoded: Seq<(String, Vec<String>)>, command: Seq<char>) -> bool {
    match decoded_arguments(decoded, command, 0) {
        Some(arguments) => persistent_arguments(arguments),
        None => persistent_looking(command),
    }
}

fn is_relay_hook(decoded: &Vec<(String, Vec<String>)>, command: &str) -> (r: bool)
    ensures
        r == relay_hook(decoded@, command@),
{
    let mut i: usize = 0;
    while i < decoded.len()
        invariant
            i <= decoded.len(),
            decoded_arguments(decoded@, command@, 0) == decoded_arguments(decoded@, command@, i as int),
        decreases decoded.len() - i,
    {
        if same_text(decoded[i].0.as_str(), command) {
            return is_persistent_relay_hook_command(command, Some(&decoded[i].1));
        }
        i += 1;
    }
    is_persistent_relay_hook_command(command, None)
}

/// Whether an approval is for this command, or for any hook of the relay where no command is given.
pub open spec fn approves_relay(
    entry: JsonView,
    command: Option<Seq<char>>,
    decoded: Seq<(String, Vec<String>)>,
) -> bool {
    match entry.text_at("command"@) {
        Some(candidate) => match command {
            Some(own) => own == candidate,
            None => relay_hook(decoded, candidate),
        },
        None => false,
    }
}

/// Whether an allowlist approves this command, or any hook of the relay where no command is given.
pub open spec fn allowlist_owned(
    allowlist: Members,
    command: Option<Seq<char>>,
    decoded: Seq<(String, Vec<String>)>,
) -> bool {
    match lookup(allowlist, "approvals"@) {
        Some(JsonView::Array(entries)) => any_approves(entries, command, decoded),
        _ => false,
    }
}

/// Whether one of the approvals is for this command, or for any hook of the relay where no command is given.
pub open spec fn any_approves(
    entries: Seq<JsonView>,
    command: Option<Seq<char>>,
    decoded: Seq<(String, Vec<String>)>,
) -> bool {
    exists|i: int| 0 <= i < entries.len() && #[trigger] approves_relay(entries[i], command, decoded)
}

/// Whether an allowlist approves this command, or any hook of the relay where no command is given. `decoded`
/// holds the arguments of the commands that are encoded.
pub fn allowlist_has_owned_command(
    allowlist: &JsonObject,
    command: Option<&str>,
    decoded: &Vec<(String, Vec<String>)>,
) -> (r: bool)
    ensures
        r == allowlist_owned(allowlist.view(), opt_str(command), decoded@),
{
    let entries = match allowlist.get("approvals") {
        Some(Json::Array(entries)) => entries,
        _ => {
            return false;
        },
    };
    proof {
        array_holds(*entries);
    }
    let ghost all = array_view(entries@);
    let ghost own = opt_str(command);
    let mut i: usize = 0;
    while i < entries.len()
        invariant
            i <= entries.len(),
            all == array_view(entries@),
            own == opt_str(command),
            lookup(allowlist.view(), "approvals"@) == Some(JsonView::Array(all)),
            forall|j: int| 0 <= j < i ==> !#[trigger] approves_relay(all[j], own, decoded@),
        decreases entries.len() - i,
    {
        assert(all[i as int] == entries@[i as int]@);
        if let Some(candidate) = entries[i].text_at("command") {
            let owned = match command {
                Some(own) => same_text(own, candidate),
                None => is_relay_hook(decoded, candidate),
            };
            if owned {
                assert(approves_relay(all[i as int], own, decoded@));
                return true;
            }
        }
        assert(!approves_relay(all[i as int], own, decoded@));
        i += 1;
    }
    false
}

/// Whether any of the three files holds something of an installation: a generation, a server, an approval.
pub open spec fn managed_state(
    profile: HermesProfile,
    generation_exists: bool,
    config: Result<Option<Seq<char>>, Seq<char>>,
    allowlist: Result<Option<Seq<char>>, Seq<char>>,
    decoded: Seq<(String, Vec<String>)>,
) -> Result<bool, Seq<char>> {
    if generation_exists {
        Ok(true)
    } else {
        match config_managed(profile, config) {
            Err(error) => Err(error),
            Ok(managed) => if managed {
                Ok(true)
            } else {
                allowlist_managed(allowlist, None, decoded)
            },
        }
    }
}

/// Whether the configuration in a file holds an installation.
pub open spec fn config_managed(profile: HermesProfile, config: Result<Option<Seq<char>>, Seq<char>>) -> Result<
    bool,
    Seq<char>,
> {
    match config {
        Err(error) => Err(error),
        Ok(None) => Ok(false),
        Ok(Some(raw)) => match yaml_object(Some(raw), "Hermes config"@) {
            Err(error) => Err(error),
            Ok(root) => Ok(configured_command(profile, root, None) is Some),
        },
    }
}

/// Whether the allowlist in a file approves this command, or any hook of the relay.
pub open spec fn allowlist_managed(
    allowlist: Result<Option<Seq<char>>, Seq<char>>,
    command: Option<Seq<char>>,
    decoded: Seq<(String, Vec<String>)>,
) -> Result<bool, Seq<char>> {
    match allowlist {
        Err(error) => Err(error),
        Ok(None) => Ok(false),
        Ok(Some(raw)) => match json_text_object(Some(raw), "Hermes shell-hook allowlist"@) {
            Err(error) => Err(error),
            Ok(root) => Ok(allowlist_owned(root, command, decoded)),
        },
    }
}

/// Whether `r` is this answer, an error as one of an installation.
pub open spec fn told<T>(r: Result<T, CliError>, answer: Result<T, Seq<char>>) -> bool {
    match r {
        Ok(value) => answer == Ok::<T, Seq<char>>(value),
        Err(error) => answer is Err && error.view() == Failure::Install(answer->Err_0),
    }
}

fn config_is_managed(profile: &HermesProfile, config: &FileText, path: &str) -> (r: Result<bool, CliError>)
    ensures
        told(r, config_managed(*profile, file_text(*config, path@))),
{
    match read_optional_utf8(config, path) {
        Err(error) => Err(error),
        Ok(None) => Ok(false),
        Ok(Some(raw)) => match parse_yaml_object(Some(raw), "Hermes config") {
            Err(error) => Err(error),
            Ok(root) => Ok(config_has_managed_state(profile, &root)),
        },
    }
}

fn allowlist_is_managed(
    allowlist: &FileText,
    path: &str,
    command: Option<&str>,
    decoded: &Vec<(String, Vec<String>)>,
) -> (r: Result<bool, CliError>)
    ensures
        told(r, allowlist_managed(file_text(*allowlist, path@), opt_str(command), decoded@)),
{
    match read_optional_utf8(allowlist, path) {
        Err(error) => Err(error),
        Ok(None) => Ok(false),
        Ok(Some(raw)) => match parse_json_object(Some(raw), "Hermes shell-hook allowlist") {
            Err(error) => Err(error),
            Ok(root) => Ok(allowlist_has_owned_command(&root, command, decoded)),
        },
    }
}

/// Whether any of the three files holds something of an installation. What was found wrong with a file tells
/// only where no file before it answers.
pub fn persistent_paths_have_managed_state(
    profile: &HermesProfile,
    paths: &PersistentPaths,
    generation_exists: bool,
    config: &FileText,
    allowlist: &FileText,
    decoded: &Vec<(String, Vec<String>)>,
) -> (r: Result<bool, CliError>)
    ensures
        told(
            r,
            managed_state(
                *profile,
                generation_exists,
                file_text(*config, paths.config@),
                file_text(*allowlist, paths.allowlist@),
                decoded@,
            ),
        ),
{
    if generation_exists {
        return Ok(true);
    }
    match config_is_managed(profile, config, paths.config.as_str()) {
        Err(error) => Err(error),
        Ok(true) => Ok(true),
        Ok(false) => allowlist_is_managed(allowlist, paths.allowlist.as_str(), None, decoded),
    }
}

/// What is left of an installation after a removal.
pub open spec fn uninstall_error(
    profile: HermesProfile,
    generation_exists: bool,
    config: Result<Option<Seq<char>>, Seq<char>>,
    allowlist: Result<Option<Seq<char>>, Seq<char>>,
    owned: Option<Seq<char>>,
    decoded: Seq<(String, Vec<String>)>,
) -> Option<Seq<char>> {
    if generation_exists {
        Some("Hermes MCP generation fence still exists"@)
    } else {
        match config_managed(profile, config) {
            Err(error) => Some(error),
            Ok(true) => Some("managed Hermes Relay config still exists"@),
            Ok(false) => match allowlist_managed(allowlist, owned, decoded) {
                Err(error) => Some(error),
                Ok(true) => Some("managed Hermes Relay trust approval still exists"@),
                Ok(false) => None,
            },
        }
    }
}

/// Checks that nothing is left of an installation.
pub fn verify_uninstall(
    profile: &HermesProfile,
    paths: &PersistentPaths,
    generation_exists: bool,
    config: &FileText,
    allowlist: &FileText,
    owned_command: Option<&str>,
    decoded: &Vec<(String, Vec<String>)>,
) -> (r: Result<(), String>)
    ensures
        answers(
            r,
            uninstall_error(
                *profile,
                generation_exists,
                file_text(*config, paths.config@),
                file_text(*allowlist, paths.allowlist@),
                opt_str(owned_command),
                decoded@,
            ),
        ),
{
    if generation_exists {
        return Err("Hermes MCP generation fence still exists".to_owned());
    }
    match config_is_managed(profile, config, paths.config.as_str()) {
        Err(error) => {
            return Err(error.message().to_owned());
        },
        Ok(true) => {
            return Err("managed Hermes Relay config still exists".to_owned());
        },
        Ok(false) => {},
    }
    match allowlist_is_managed(allowlist, paths.allowlist.as_str(), owned_command, decoded) {
        Err(error) => Err(error.message().to_owned()),
        Ok(true) => Err("managed Hermes Relay trust approval still exists".to_owned()),
        Ok(false) => Ok(()),
    }
}

/// The executable of the installation that a configuration holds.
pub open spec fn configured_executable(profile: HermesProfile, root: Members) -> Result<Seq<char>, Seq<char>> {
    match relay_server(root) {
        None => Err("Hermes MCP server `nemo-relay` is missing"@),
        Some(server) => match server.text_at("command"@) {
            None => Err("Hermes Relay MCP command is missing"@),
            Some(relay) => if owned_command(profile, root, relay, None) is None {
                Err("Hermes MCP server `nemo-relay` is not a managed Relay MCP client"@)
            } else {
                Ok(relay)
            },
        },
    }
}

/// The executable of the installation that a configuration holds, so that it is the one looked at which the
/// agent will start.
pub fn relay_executable_from_config(profile: &HermesProfile, config: &JsonObject) -> (r: Result<String, String>)
    ensures
        match r {
            Ok(relay) => configured_executable(*profile, config.view()) == Ok::<Seq<char>, Seq<char>>(relay@),
            Err(error) => configured_executable(*profile, config.view()) == Err::<Seq<char>, Seq<char>>(error@),
        },
{
    let server = match find_relay_server(config) {
        None => {
            return Err("Hermes MCP server `nemo-relay` is missing".to_owned());
        },
        Some(server) => server,
    };
    match server.text_at("command") {
        None => Err("Hermes Relay MCP command is missing".to_owned()),
        Some(relay) => {
            if owned_install_command(profile, config, relay, None).is_none() {
                Err("Hermes MCP server `nemo-relay` is not a managed Relay MCP client".to_owned())
            } else {
                Ok(relay.to_owned())
            }
        },
    }
}

/// The relay that is to be installed, at `relay`, when it can be executed.
pub fn require_installable(relay: String, executable: bool) -> (r: Result<String, CliError>)
    ensures
        executable ==> r is Ok && r->Ok_0@ == relay@,
        !executable ==> r is Err && r->Err_0.view() == Failure::Install(
            "nemo-relay executable is missing or not executable at "@ + relay@,
        ),
{
    if executable {
        Ok(relay)
    } else {
        Err(
            CliError::Install(
                "nemo-relay executable is missing or not executable at ".to_owned().concat(relay.as_str()),
            ),
        )
    }
}

/// Passes on the path of a configured relay that can be executed.
pub fn require_executable(relay: String, executable: bool) -> (r: Result<String, String>)
    ensures
        executable ==> r is Ok && r->Ok_0@ == relay@,
        !executable ==> r is Err && r->Err_0@ == not_executable(relay@),
{
    if executable {
        Ok(relay)
    } else {
        Err(
            "configured nemo-relay executable is missing or not executable at ".to_owned().concat(relay.as_str()),
        )
    }
}

/// What says that a configured relay cannot be executed.
pub open spec fn not_executable(relay: Seq<char>) -> Seq<char> {
    "configured nemo-relay executable is missing or not executable at "@ + relay
}

/// The executable of the installation in the configuration that a text holds.
pub fn configured_relay_executable(profile: &HermesProfile, raw: &str) -> (r: Result<String, String>)
    ensures
        match yaml_object(Some(raw@), "Hermes config"@) {
            Err(error) => r is Err && r->Err_0@ == error,
            Ok(root) => match r {
                Ok(relay) => configured_executable(*profile, root) == Ok::<Seq<char>, Seq<char>>(relay@),
                Err(error) => configured_executable(*profile, root) == Err::<Seq<char>, Seq<char>>(error@),
            },
        },
{
    match parse_yaml_object(Some(raw), "Hermes config") {
        Err(error) => Err(error.message().to_owned()),
        Ok(root) => relay_executable_from_config(profile, &root),
    }
}

/// What is wrong with the generation that the relay's server is fenced with.
pub open spec fn fence_error(
    profile: HermesProfile,
    server: JsonView,
    generation: Seq<char>,
    token: Seq<char>,
) -> Option<Seq<char>> {
    match server.get("env"@) {
        Some(JsonView::Object(env)) => {
            if lookup(env, "NEMO_RELAY_GATEWAY_BIND"@) != Some(JsonView::Text(DEFAULT_BIND@)) {
                Some("Hermes Relay MCP must use the shared gateway bind "@ + DEFAULT_BIND@)
            } else {
                match member_text(env, profile.generation_file_env@) {
                    None => Some("Hermes Relay MCP generation fence is missing"@),
                    Some(file) => if !same_place(profile.platform.windows, file, generation) {
                        Some("Hermes Relay MCP generation fence points at the wrong file"@)
                    } else {
                        match member_text(env, profile.generation_token_env@) {
                            None => Some("Hermes Relay MCP expected generation identity is missing"@),
                            Some(own) => if own != token {
                                Some("Hermes Relay MCP expected generation identity is stale"@)
                            } else {
                                None
                            },
                        }
                    },
                }
            }
        },
        _ => Some("Hermes Relay MCP environment is missing"@),
    }
}

/// The text of a member.
pub open spec fn member_text(members: Members, key: Seq<char>) -> Option<Seq<char>> {
    match lookup(members, key) {
        Some(value) => value.text(),
        None => None,
    }
}

fn find_member_text<'a>(members: &'a JsonObject, key: &str) -> (r: Option<&'a str>)
    ensures
        opt_str(r) == member_text(members.view(), key@),
{
    match members.get(key) {
        Some(value) => value.as_text(),
        None => None,
    }
}

fn check_fence<'a>(profile: &HermesProfile, server: &'a Json, generation: &str, token: &str) -> (r: Result<
    &'a JsonObject,
    String,
>)
    ensures
        match r {
            Ok(env) => fence_error(*profile, server@, generation@, token@) is None && server@.get("env"@) == Some(
                JsonView::Object(env.view()),
            ),
            Err(error) => fence_error(*profile, server@, generation@, token@) == Some(error@),
        },
{
    let env = match server.get("env") {
        Some(Json::Object(env)) => env,
        _ => {
            return Err("Hermes Relay MCP environment is missing".to_owned());
        },
    };
    let bound = match env.get("NEMO_RELAY_GATEWAY_BIND") {
        Some(bind) => bind.is_text(DEFAULT_BIND),
        None => false,
    };
    if !bound {
        return Err("Hermes Relay MCP must use the shared gateway bind ".to_owned().concat(DEFAULT_BIND));
    }
    match find_member_text(env, profile.generation_file_env.as_str()) {
        None => {
            return Err("Hermes Relay MCP generation fence is missing".to_owned());
        },
        Some(file) => {
            if !same_path(profile.platform.windows, file, generation) {
                return Err("Hermes Relay MCP generation fence points at the wrong file".to_owned());
            }
        },
    }
    match find_member_text(env, profile.generation_token_env.as_str()) {
        None => Err("Hermes Relay MCP expected generation identity is missing".to_owned()),
        Some(own) => {
            if !same_text(own, token) {
                Err("Hermes Relay MCP expected generation identity is stale".to_owned())
            } else {
                Ok(env)
            }
        },
    }
}

/// The names among the first `n` whose variables are not set as expected.
pub open spec fn unset_names(env: Members, expected: Members, names: Seq<Seq<char>>, n: int) -> Seq<Seq<char>>
    decreases n,
{
    if n <= 0 {
        Seq::empty()
    } else {
        let before = unset_names(env, expected, names, n - 1);
        if lookup(env, names[n - 1]) != lookup(expected, names[n - 1]) {
            before.push(names[n - 1])
        } else {
            before
        }
    }
}

proof fn environment_is_plain(
    profile: HermesProfile,
    generation: Seq<char>,
    token: Seq<char>,
    environment: Seq<Seq<char>>,
    n: int,
)
    requires
        0 <= n <= environment.len(),
    ensures
        JsonView::Object(server_environment(profile, generation, token, environment, n)).plain(),
    decreases n,
{
    if n == 0 {
        members_of_plain(
            seq![
                ("NEMO_RELAY_GATEWAY_BIND"@, JsonView::Text(DEFAULT_BIND@)),
                (profile.generation_file_env@, JsonView::Text(generation)),
                (profile.generation_token_env@, JsonView::Text(token)),
            ],
        );
    } else {
        environment_is_plain(profile, generation, token, environment, n - 1);
        inserted_plain(
            server_environment(profile, generation, token, environment, n - 1),
            environment[n - 1],
            JsonView::Text("${"@ + environment[n - 1] + "}"@),
        );
    }
}

/// The relay's server holds no odd numbers.
pub proof fn server_is_plain(
    profile: HermesProfile,
    relay: Seq<char>,
    generation: Seq<char>,
    token: Seq<char>,
    environment: Seq<Seq<char>>,
)
    ensures
        expected_server(profile, relay, generation, token, environment).plain(),
{
    let n = environment.len() as int;
    environment_is_plain(profile, generation, token, environment, n);
    texts_json_plain(seq!["mcp"@]);
    members_of_plain(
        seq![
            ("command"@, JsonView::Text(relay)),
            ("args"@, texts_json(seq!["mcp"@])),
            ("env"@, JsonView::Object(server_environment(profile, generation, token, environment, n))),
        ],
    );
}

fn find_unset_names(
    profile: &HermesProfile,
    env: &JsonObject,
    generation: &str,
    token: &str,
    environment: &Vec<String>,
) -> (r: Vec<String>)
    ensures
        ({
            let names = texts(environment@);
            let n = names.len() as int;
            texts(r@) == unset_names(
                env.view(),
                server_environment(*profile, generation@, token@, names, n),
                names,
                n,
            )
        }),
{
    let ghost names = texts(environment@);
    let expected = make_server_environment(profile, generation, token, environment);
    proof {
        environment_is_plain(*profile, generation@, token@, names, names.len() as int);
    }
    let mut unset: Vec<String> = Vec::new();
    let mut i: usize = 0;
    assert(texts(unset@) =~= Seq::empty());
    while i < environment.len()
        invariant
            i <= environment.len(),
            names == texts(environment@),
            JsonView::Object(expected.view()).plain(),
            texts(unset@) == unset_names(env.view(), expected.view(), names, i as int),
        decreases environment.len() - i,
    {
        let name = environment[i].as_str();
        assert(names[i as int] == name@);
        let same = match (env.get(name), expected.get(name)) {
            (Some(own), Some(wanted)) => {
                proof {
                    lookup_plain(expected.view(), name@);
                }
                same_json(own, wanted)
            },
            (None, None) => true,
            _ => false,
        };
        if !same {
            let ghost before = unset@;
            unset.push(name.to_owned());
            assert(texts(unset@) =~= texts(before).push(name@));
        }
        i += 1;
    }
    unset
}

/// What is known of an installation: the configuration that it stands in, whether its relay can be executed,
/// the token of its generation, the text of the allowlist and the names of the variables that are to be
/// forwarded, or why each is not known.
pub struct Installation<'a> {
    pub config: &'a JsonObject,
    pub executable: bool,
    pub token: Result<String, String>,
    pub allowlist: Result<String, String>,
    pub environment: Result<Vec<String>, String>,
}

/// What is wrong with the hooks and approvals of an installation.
pub open spec fn hook_trust_error(
    config: Members,
    events: Seq<Seq<char>>,
    command: Seq<char>,
    allowlist: Result<String, String>,
    allowlist_path: Seq<char>,
) -> Option<Seq<char>> {
    match hooks_error(config, events, command) {
        Some(error) => Some(error),
        None => match allowlist {
            Err(error) => Some("failed to read "@ + allowlist_path + ": "@ + error@),
            Ok(raw) => match json_text_object(Some(raw@), "Hermes shell-hook allowlist"@) {
                Err(error) => Some(error),
                Ok(root) => trust_error(root, events, command),
            },
        },
    }
}

/// Checks the hooks and approvals of an installation.
pub fn check_hook_trust(
    config: &JsonObject,
    events: &Vec<String>,
    command: &str,
    allowlist: &Result<String, String>,
    allowlist_path: &str,
) -> (r: Result<(), String>)
    ensures
        answers(
            r,
            hook_trust_error(config.view(), texts(events@), command@, *allowlist, allowlist_path@),
        ),
{
    match verify_hook_definitions(config, events, command) {
        Err(error) => Err(error),
        Ok(_) => match allowlist {
            Err(error) => Err(
                "failed to read ".to_owned().concat(allowlist_path).concat(": ").concat(error.as_str()),
            ),
            Ok(raw) => verify_trust(raw.as_str(), events, command),
        },
    }
}

/// The findings on an installation.
pub open spec fn diagnosis(profile: HermesProfile, paths: PersistentPaths, known: Installation) -> Result<
    Seq<char>,
    Seq<char>,
> {
    let config = known.config.view();
    match configured_executable(profile, config) {
        Err(error) => Err(error),
        Ok(relay) => if !known.executable {
            Err(not_executable(relay))
        } else {
            match known.token {
                Err(error) => Err(error@),
                Ok(token) => {
                    let events = texts(profile.hook_events@);
                    let command = persistent_command(profile.platform, relay, paths.generation@, token@);
                    let server = relay_server(config)->Some_0;
                    match hook_trust_error(config, events, command, known.allowlist, paths.allowlist@) {
                        Some(error) => Err(error),
                        None => match fence_error(profile, server, paths.generation@, token@) {
                            Some(error) => Err(error),
                            None => match known.environment {
                                Err(error) => Err(error@),
                                Ok(environment) => {
                                    let names = texts(environment@);
                                    let n = names.len() as int;
                                    let unset = unset_names(
                                        server_env(server),
                                        server_environment(profile, paths.generation@, token@, names, n),
                                        names,
                                        n,
                                    );
                                    if unset.len() > 0 {
                                        Err(
                                            "Hermes Relay MCP is missing environment names "@ + joined(
                                                unset,
                                                ", "@,
                                            ) + "; run `nemo-relay install hermes --force`"@,
                                        )
                                    } else {
                                        Ok(
                                            "MCP lifecycle and "@ + decimal(events.len()) + " hooks trusted at "@
                                                + paths.config@,
                                        )
                                    }
                                },
                            },
                        },
                    }
                },
            }
        },
    }
}

/// Looks at an installation: its executable, its hooks and their approvals, its generation and the variables
/// that its server is to be given, in this order.
pub fn diagnose_persistent(profile: &HermesProfile, paths: &PersistentPaths, known: &Installation) -> (r: Result<
    String,
    String,
>)
    ensures
        match r {
            Ok(text) => diagnosis(*profile, *paths, *known) == Ok::<Seq<char>, Seq<char>>(text@),
            Err(error) => diagnosis(*profile, *paths, *known) == Err::<Seq<char>, Seq<char>>(error@),
        },
{
    let relay = match relay_executable_from_config(profile, known.config) {
        Err(error) => {
            return Err(error);
        },
        Ok(relay) => relay,
    };
    let relay = match require_executable(relay, known.executable) {
        Err(error) => {
            return Err(error);
        },
        Ok(relay) => relay,
    };
    let token = match &known.token {
        Err(error) => {
            return Err(error.clone());
        },
        Ok(token) => token.as_str(),
    };
    let generation = paths.generation.as_str();
    let command = persistent_hook_command(&profile.platform, relay.as_str(), generation, token);
    match check_hook_trust(
        known.config,
        &profile.hook_events,
        command.as_str(),
        &known.allowlist,
        paths.allowlist.as_str(),
    ) {
        Err(error) => {
            return Err(error);
        },
        Ok(_) => {},
    }
    let server = match find_relay_server(known.config) {
        Some(server) => server,
        None => {
            return Err("Hermes MCP server `nemo-relay` is missing".to_owned());
        },
    };
    let env = match check_fence(profile, server, generation, token) {
        Err(error) => {
            return Err(error);
        },
        Ok(env) => env,
    };
    let environment = match &known.environment {
        Err(error) => {
            return Err(error.clone());
        },
        Ok(environment) => environment,
    };
    let unset = find_unset_names(profile, env, generation, token, environment);
    assert(texts(unset@).len() == unset@.len());
    if unset.len() > 0 {
        return Err(
            "Hermes Relay MCP is missing environment names ".to_owned().concat(
                join_texts(&unset, ", ").as_str(),
            ).concat("; run `nemo-relay install hermes --force`"),
        );
    }
    assert(texts(profile.hook_events@).len() == profile.hook_events@.len());
    Ok(
        "MCP lifecycle and ".to_owned().concat(decimal_text(profile.hook_events.len() as u64).as_str()).concat(
            " hooks trusted at ",
        ).concat(paths.config.as_str()),
    )
}

} // verus!
