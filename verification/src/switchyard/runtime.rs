//! A routing plugin that is ready to run.

use crate::json::{members_of, Json, JsonObject, JsonView, Members};
use crate::ordered::{inserted_at, sorted, text_less, StringMap};
use crate::switchyard::config::{answers, base_urls, config_error, validate_config, SwitchyardConfig, Targets};
use crate::switchyard::headers::{
    call_headers, header_entries, resolve_headers, resolve_json_headers, target_members, HeaderEntries, TextEntries,
};
use crate::switchyard::request::SwitchyardRuntime;
use crate::text::{decimal, decimal_text};
use crate::url::{parse_url, url_parts, UrlParts, UrlView};
use vstd::prelude::*;
use vstd::string::*;

verus! {

/// The headers of one target.
pub open spec fn headers_of(targets: Targets, environment: TextEntries, i: int) -> Result<Members, Seq<char>> {
    let target = targets[i].1;
    match target_members(target.headers, target.header_env, environment, target.header_env.len() as int) {
        Ok(members) => Ok(members_of(members)),
        Err(error) => Err(error),
    }
}

/// The headers of the first `n` targets, or what is wrong with those of the first that are wrong.
pub open spec fn all_headers(targets: Targets, environment: TextEntries, n: int) -> Result<
    Seq<(Seq<char>, Members)>,
    Seq<char>,
>
    decreases n,
{
    if n <= 0 {
        Ok(Seq::empty())
    } else {
        match all_headers(targets, environment, n - 1) {
            Err(error) => Err(error),
            Ok(done) => match headers_of(targets, environment, n - 1) {
                Err(error) => Err(error),
                Ok(members) => Ok(done.push((targets[n - 1].0, members))),
            },
        }
    }
}

proof fn all_headers_stop(targets: Targets, environment: TextEntries, n: int, m: int)
    requires
        n <= m,
        all_headers(targets, environment, n) is Err,
    ensures
        all_headers(targets, environment, m) == all_headers(targets, environment, n),
    decreases m - n,
{
    if n < m {
        all_headers_stop(targets, environment, n, m - 1);
    }
}

/// The headers of the calls that ask for decisions.
pub open spec fn asking_headers(config: SwitchyardConfig, environment: TextEntries) -> Result<HeaderEntries, Seq<char>> {
    call_headers(
        config.decision_headers.view(),
        config.decision_header_env.view(),
        environment,
        config.decision_header_env.view().len() as int,
    )
}

/// The headers of the targets of a configuration that can be made ready, or the first thing that is wrong with
/// it: with what it says, with the headers of the calls that ask for decisions, or with those of its targets.
pub open spec fn ready_headers(config: SwitchyardConfig, environment: TextEntries) -> Result<
    Seq<(Seq<char>, Members)>,
    Seq<char>,
> {
    match config_error(config, url_parts(config.decision_api_url@), base_urls(config.targets.view())) {
        Some(error) => Err(error),
        None => match asking_headers(config, environment) {
            Err(error) => Err(error),
            Ok(_) => all_headers(config.targets.view(), environment, config.targets.view().len() as int),
        },
    }
}

impl SwitchyardRuntime {
    /// Validates a configuration and gives the headers of the calls that ask for decisions.
    pub fn decision_headers(config: &SwitchyardConfig, environment: &StringMap<String>) -> (r: Result<
        reqwest::header::HeaderMap<reqwest::header::HeaderValue>,
        String,
    >)
        requires
            config.decision_headers.view().len() + config.decision_header_env.view().len() <= 6554,
        ensures
            match config_error(*config, url_parts(config.decision_api_url@), base_urls(config.targets.view())) {
                Some(error) => r is Err && r->Err_0@ == error,
                None => {
                    let headers = asking_headers(*config, environment.view());
                    match r {
                        Ok(map) => headers == Ok::<HeaderEntries, Seq<char>>(header_entries(map)),
                        Err(error) => headers == Err::<HeaderEntries, Seq<char>>(error@),
                    }
                },
            },
    {
        match validate_config(config) {
            Err(error) => Err(error),
            Ok(_) => resolve_headers(&config.decision_headers, &config.decision_header_env, environment),
        }
    }

    /// Makes a configuration ready, with the headers of its targets taken from it and from `environment`. No
    /// runtime comes of a configuration that is refused, or of one whose calls for decisions have no headers.
    pub fn new(config: SwitchyardConfig, environment: &StringMap<String>) -> (r: Result<SwitchyardRuntime, String>)
        requires
            config.decision_headers.view().len() + config.decision_header_env.view().len() <= 6554,
        ensures
            match ready_headers(config, environment.view()) {
                Ok(headers) => match r {
                    Ok(runtime) => runtime.config == config && runtime.target_headers.view() == headers,
                    Err(_) => false,
                },
                Err(error) => r is Err && r->Err_0@ == error,
            },
    {
        if let Err(error) = SwitchyardRuntime::decision_headers(&config, environment) {
            return Err(error);
        }
        let ghost targets = config.targets.view();
        let mut target_headers: StringMap<JsonObject> = StringMap::new();
        let count: usize = config.targets.len();
        let mut i: usize = 0;
        while i < count
            invariant
                i <= count,
                count == targets.len(),
                targets == config.targets.view(),
                config_error(config, url_parts(config.decision_api_url@), base_urls(targets)) is None,
                asking_headers(config, environment.view()) is Ok,
                sorted(targets),
                all_headers(targets, environment.view(), i as int) == Ok::<Seq<(Seq<char>, Members)>, Seq<char>>(
                    target_headers.view(),
                ),
                target_headers.view().len() == i,
                forall|j: int| 0 <= j < i ==> (#[trigger] target_headers.view()[j]).0 == targets[j].0,
            decreases count - i,
        {
            let id = config.targets.key_at(i);
            let target = config.targets.value_at(i);
            match resolve_json_headers(&target.headers, &target.header_env, environment) {
                Err(error) => {
                    proof {
                        all_headers_stop(targets, environment.view(), i + 1, targets.len() as int);
                    }
                    return Err(error);
                },
                Ok(headers) => {
                    let ghost before = target_headers.view();
                    let ghost members = headers.view();
                    target_headers.insert(id.to_owned(), headers);
                    proof {
                        assert forall|j: int| 0 <= j < i implies text_less(#[trigger] before[j].0, id@) by {
                            assert(text_less(targets[j].0, targets[i as int].0));
                        }
                        inserted_at(before, id@, members, i as int);
                        assert(target_headers.view() =~= before.push((id@, members)));
                    }
                },
            }
            i += 1;
        }
        Ok(SwitchyardRuntime { config, target_headers })
    }
}

/// The URL of the service's health report: `/health` at the root of where decisions are asked for.
pub open spec fn health_address(url: UrlView) -> Option<Seq<char>> {
    match url.host {
        None => None,
        Some(host) => Some(
            url.scheme + "://"@ + host + (match url.port {
                Some(port) => ":"@ + decimal(port as nat),
                None => Seq::empty(),
            }) + "/health"@,
        ),
    }
}

/// The URL of the health report of a service whose Decision API has this URL.
pub fn health_url_of(url: &UrlParts) -> (r: Option<String>)
    ensures
        match r {
            Some(s) => health_address(url.view()) == Some(s@),
            None => health_address(url.view()) is None,
        },
{
    match &url.host {
        None => None,
        Some(host) => {
            let root = url.scheme.clone().concat("://").concat(host.as_str());
            let root = match url.port {
                Some(port) => {
                    let behind = ":".to_owned().concat(decimal_text(port as u64).as_str());
                    root.concat(behind.as_str())
                },
                None => root.concat(""),
            };
            proof {
                reveal_strlit("");
                assert(""@ =~= Seq::<char>::empty());
            }
            Some(root.concat("/health"))
        },
    }
}

/// The URL of the health report of a service with this Decision API URL: none where it is no URL, or one
/// without a host.
pub fn health_url(decision_api_url: &str) -> (r: Option<String>)
    ensures
        match url_parts(decision_api_url@) {
            Ok(url) => match r {
                Some(s) => health_address(url) == Some(s@),
                None => health_address(url) is None,
            },
            Err(_) => r is None,
        },
{
    match parse_url(decision_api_url) {
        Ok(url) => health_url_of(&url),
        Err(_) => None,
    }
}

/// Whether a health report says that the service is well.
pub fn reports_health(report: &Json) -> (r: bool)
    ensures
        r == (report@.get("status"@) == Some(JsonView::Text("ok"@))),
{
    match report.get("status") {
        Some(status) => status.is_text("ok"),
        None => false,
    }
}

/// What came of asking a service for its health.
#[derive(Debug)]
pub enum HealthAnswer {
    /// Nothing answered; the error in words.
    Unsent(String),
    /// The answer is no JSON; the error in words.
    Unreadable(String),
    Report(Json),
}

/// Why the plugin is not activated, given what came of asking the service at `url` for its health.
pub open spec fn health_error(url: Seq<char>, answer: HealthAnswer) -> Option<Seq<char>> {
    match answer {
        HealthAnswer::Unsent(error) => Some("Switchyard health request failed: "@ + error@),
        HealthAnswer::Unreadable(error) => Some("Switchyard health report is invalid: "@ + error@),
        HealthAnswer::Report(report) => if report@.get("status"@) == Some(JsonView::Text("ok"@)) {
            None
        } else {
            Some("the Switchyard service is not healthy at "@ + url)
        },
    }
}

/// Lets the plugin be activated only where the service at `url` reports that it is well.
pub fn check_health(url: &str, answer: HealthAnswer) -> (r: Result<(), String>)
    ensures
        answers(r, health_error(url@, answer)),
{
    match answer {
        HealthAnswer::Unsent(error) => Err("Switchyard health request failed: ".to_owned().concat(error.as_str())),
        HealthAnswer::Unreadable(error) => Err(
            "Switchyard health report is invalid: ".to_owned().concat(error.as_str()),
        ),
        HealthAnswer::Report(report) => if reports_health(&report) {
            Ok(())
        } else {
            Err("the Switchyard service is not healthy at ".to_owned().concat(url))
        },
    }
}

} // verus!
