//! Preparing a transparent run of the agent.

use crate::error::{CliError, Failure};
use crate::hermes::paths::{lies_in, path_starts_with, ALLOWLIST_FILE_NAME};
use crate::text::{same_text, texts, trim_end_char, without_end_char};
use vstd::prelude::*;
use vstd::string::*;

verus! {

/// The launch of an agent, as far as it is prepared.
#[derive(Debug)]
pub struct PreparedAgentLaunch {
    pub env: Vec<(String, String)>,
    pub notes: Vec<String>,
    /// Directories that go when the run ends.
    pub temp_dirs: Vec<String>,
}

pub struct LaunchView {
    pub env: Seq<(Seq<char>, Seq<char>)>,
    pub notes: Seq<Seq<char>>,
    pub temp_dirs: Seq<Seq<char>>,
}

/// Names and their values.
pub open spec fn env_view(env: Seq<(String, String)>) -> Seq<(Seq<char>, Seq<char>)> {
    Seq::new(env.len(), |i: int| (env[i].0@, env[i].1@))
}

impl PreparedAgentLaunch {
    pub open spec fn view(&self) -> LaunchView {
        LaunchView { env: env_view(self.env@), notes: texts(self.notes@), temp_dirs: texts(self.temp_dirs@) }
    }

    fn set(&mut self, name: &str, value: &str)
        ensures
            final(self).view() == (LaunchView {
                env: old(self).view().env.push((name@, value@)),
                ..old(self).view()
            }),
    {
        let ghost before = self.env@;
        self.env.push((name.to_owned(), value.to_owned()));
        assert(env_view(self.env@) =~= env_view(before).push((name@, value@)));
    }

    fn note(&mut self, text: String)
        ensures
            final(self).view() == (LaunchView { notes: old(self).view().notes.push(text@), ..old(self).view() }),
    {
        let ghost before = self.notes@;
        self.notes.push(text);
        assert(texts(self.notes@) =~= texts(before).push(text@));
    }
}

/// The first value of a name from place `from` on.
pub open spec fn env_value(env: Seq<(Seq<char>, Seq<char>)>, name: Seq<char>, from: int) -> Option<Seq<char>>
    decreases env.len() - from,
{
    if from >= env.len() {
        None
    } else if env[from].0 == name {
        Some(env[from].1)
    } else {
        env_value(env, name, from + 1)
    }
}

fn find_env(env: &Vec<(String, String)>, name: &str) -> (r: String)
    requires
        env_value(env_view(env@), name@, 0) is Some,
    ensures
        env_value(env_view(env@), name@, 0) == Some(r@),
{
    let mut i: usize = 0;
    let ghost all = env_view(env@);
    while i < env.len()
        invariant
            i <= env.len(),
            all == env_view(env@),
            env_value(all, name@, 0) is Some,
            env_value(all, name@, 0) == env_value(all, name@, i as int),
        decreases env.len() - i,
    {
        assert(all[i as int] == (env@[i as int].0@, env@[i as int].1@));
        if same_text(env[i].0.as_str(), name) {
            return env[i].1.clone();
        }
        i += 1;
    }
    String::new()
}

/// A launch whose agent accepts the hooks and calls the models of the gateway.
pub open spec fn routed_launch(launch: LaunchView, gateway_url: Seq<char>) -> LaunchView {
    LaunchView {
        env: launch.env.push(("HERMES_ACCEPT_HOOKS"@, "1"@)).push(
            ("OPENAI_BASE_URL"@, trim_end_char(gateway_url, '/') + "/v1"@),
        ),
        ..launch
    }
}

/// An overlay that is to be made: of this home directory, for this gateway.
#[derive(Debug)]
pub struct OverlayPlan {
    pub source_home: String,
    pub gateway_url: String,
}

/// Prepares a launch with the configuration at `source_config`, in the directory `parent`. The gateway's URL
/// stands under `gateway_url_name` in the launch's environment, which every transparent run sets. What comes
/// back is the overlay that the run needs; a dry run needs none.
pub fn prepare(
    launch: &mut PreparedAgentLaunch,
    source_config: &str,
    parent: Option<&str>,
    gateway_url_name: &str,
    dry_run: bool,
) -> (r: Result<Option<OverlayPlan>, CliError>)
    requires
        env_value(old(launch).view().env, gateway_url_name@, 0) is Some,
    ensures
        ({
            let gateway_url = env_value(old(launch).view().env, gateway_url_name@, 0)->Some_0;
            let routed = routed_launch(old(launch).view(), gateway_url);
            if dry_run {
                &&& r is Ok && r->Ok_0 is None
                &&& final(launch).view() == (LaunchView {
                    notes: routed.notes.push(
                        "would create an isolated Hermes config overlay for "@ + source_config@,
                    ),
                    ..routed
                })
            } else {
                &&& final(launch).view() == routed
                &&& match parent {
                    Some(home) => {
                        &&& r is Ok && r->Ok_0 is Some
                        &&& r->Ok_0->Some_0.source_home@ == home@
                        &&& r->Ok_0->Some_0.gateway_url@ == gateway_url
                    },
                    None => r is Err && r->Err_0.view() == Failure::Launch(
                        "Hermes config path "@ + source_config@ + " has no parent directory"@,
                    ),
                }
            }
        }),
{
    let gateway_url = find_env(&launch.env, gateway_url_name);
    launch.set("HERMES_ACCEPT_HOOKS", "1");
    let base_url = without_end_char(gateway_url.as_str(), '/').to_owned().concat("/v1");
    launch.set("OPENAI_BASE_URL", base_url.as_str());
    if dry_run {
        launch.note("would create an isolated Hermes config overlay for ".to_owned().concat(source_config));
        return Ok(None);
    }
    match parent {
        Some(home) => Ok(Some(OverlayPlan { source_home: home.to_owned(), gateway_url })),
        None => Err(
            CliError::Launch(
                "Hermes config path ".to_owned().concat(source_config).concat(" has no parent directory"),
            ),
        ),
    }
}

/// Puts the overlay at `overlay_home` into a launch.
pub fn use_overlay(launch: &mut PreparedAgentLaunch, source_config: &str, overlay_home: &str)
    ensures
        final(launch).view() == (LaunchView {
            env: old(launch).view().env.push(("HERMES_HOME"@, overlay_home@)),
            notes: old(launch).view().notes.push(
                "using an isolated Hermes config overlay for "@ + source_config@,
            ),
            temp_dirs: old(launch).view().temp_dirs.push(overlay_home@),
        }),
{
    launch.set("HERMES_HOME", overlay_home);
    launch.note("using an isolated Hermes config overlay for ".to_owned().concat(source_config));
    let ghost before = launch.temp_dirs@;
    launch.temp_dirs.push(overlay_home.to_owned());
    assert(texts(launch.temp_dirs@) =~= texts(before).push(overlay_home@));
}

/// Whether an entry of the home directory is linked into an overlay: not the configuration and the allowlist,
/// which are the overlay's own, and not what the overlay itself lies in.
pub fn links_entry(windows: bool, name: &str, absolute_source: &str, absolute_overlay: &str) -> (r: bool)
    ensures
        r == (name@ != "config.yaml"@ && name@ != ALLOWLIST_FILE_NAME@ && !lies_in(
            windows,
            absolute_overlay@,
            absolute_source@,
        )),
{
    !same_text(name, "config.yaml") && !same_text(name, ALLOWLIST_FILE_NAME) && !path_starts_with(
        windows,
        absolute_overlay,
        absolute_source,
    )
}

} // verus!
