//! Who owns the shared gateway, and how its owner stops it.

use crate::hermes::paths::{join_path, joined_path};
use crate::text::{chars_of, decimal, decimal_text, opt_str, opt_text, same_text};
use crate::url::{parse_url, parsed_url, url_parts, ParsedUrl, UrlParts, UrlView};
use vstd::pervasive::unreached;
use vstd::prelude::*;
use vstd::string::*;

verus! {

pub const BOOTSTRAP_STATE_DIR_ENV: &'static str = "NEMO_RELAY_BOOTSTRAP_STATE_DIR";

pub const BOOTSTRAP_SHUTDOWN_TOKEN_ENV: &'static str = "NEMO_RELAY_BOOTSTRAP_SHUTDOWN_TOKEN";

/// How long a gateway may take to stop, in seconds.
pub const SHUTDOWN_TIMEOUT_SECONDS: u64 = 5;

/// The pause between two looks at a gateway that is stopping, in milliseconds.
pub const SHUTDOWN_POLL_MILLIS: u64 = 50;

/// The record of the process that owns a gateway.
#[derive(Debug)]
pub struct OwnerRecord {
    pub service: String,
    pub version: String,
    pub bootstrap_protocol: u64,
    pub pid: u32,
    pub url: String,
    pub shutdown_token: String,
    pub bootstrap_fingerprint: Option<String>,
}

pub struct OwnerView {
    pub service: Seq<char>,
    pub version: Seq<char>,
    pub bootstrap_protocol: u64,
    pub pid: u32,
    pub url: Seq<char>,
    pub shutdown_token: Seq<char>,
    pub bootstrap_fingerprint: Option<Seq<char>>,
}

/// A record that the gateway at a URL can be stopped by.
pub open spec fn owns(record: OwnerView, url: Seq<char>, protocol: u64) -> bool {
    &&& record.service == "nemo-relay"@
    &&& record.bootstrap_protocol == protocol
    &&& record.url == url
    &&& record.shutdown_token.len() > 0
    &&& record.bootstrap_fingerprint is Some
    &&& record.bootstrap_fingerprint->Some_0.len() > 0
}

fn same_option(a: &Option<String>, b: &Option<String>) -> (r: bool)
    ensures
        r == (opt_text(*a) == opt_text(*b)),
{
    match (a, b) {
        (Some(x), Some(y)) => same_text(x.as_str(), y.as_str()),
        (None, None) => true,
        _ => false,
    }
}

impl OwnerRecord {
    pub open spec fn view(&self) -> OwnerView {
        OwnerView {
            service: self.service@,
            version: self.version@,
            bootstrap_protocol: self.bootstrap_protocol,
            pid: self.pid,
            url: self.url@,
            shutdown_token: self.shutdown_token@,
            bootstrap_fingerprint: opt_text(self.bootstrap_fingerprint),
        }
    }

    /// The record of the process `pid` of this version of the relay.
    pub fn new(
        version: &str,
        protocol: u64,
        pid: u32,
        url: &str,
        shutdown_token: &str,
        fingerprint: Option<&str>,
    ) -> (r: Self)
        ensures
            r.view() == (OwnerView {
                service: "nemo-relay"@,
                version: version@,
                bootstrap_protocol: protocol,
                pid,
                url: url@,
                shutdown_token: shutdown_token@,
                bootstrap_fingerprint: opt_str(fingerprint),
            }),
    {
        OwnerRecord {
            service: "nemo-relay".to_owned(),
            version: version.to_owned(),
            bootstrap_protocol: protocol,
            pid,
            url: url.to_owned(),
            shutdown_token: shutdown_token.to_owned(),
            bootstrap_fingerprint: match fingerprint {
                Some(s) => Some(s.to_owned()),
                None => None,
            },
        }
    }

    /// Whether the gateway at a URL can be stopped by this record.
    pub fn valid_for(&self, url: &str, protocol: u64) -> (r: bool)
        ensures
            r == owns(self.view(), url@, protocol),
    {
        same_text(self.service.as_str(), "nemo-relay") && self.bootstrap_protocol == protocol && same_text(
            self.url.as_str(),
            url,
        ) && !self.shutdown_token.as_str().is_empty() && match &self.bootstrap_fingerprint {
            Some(fingerprint) => !fingerprint.as_str().is_empty(),
            None => false,
        }
    }

    /// Whether two records are the same.
    pub fn same_as(&self, other: &OwnerRecord) -> (r: bool)
        ensures
            r == (self.view() == other.view()),
    {
        same_text(self.service.as_str(), other.service.as_str()) && same_text(
            self.version.as_str(),
            other.version.as_str(),
        ) && self.bootstrap_protocol == other.bootstrap_protocol && self.pid == other.pid && same_text(
            self.url.as_str(),
            other.url.as_str(),
        ) && same_text(self.shutdown_token.as_str(), other.shutdown_token.as_str()) && same_option(
            &self.bootstrap_fingerprint,
            &other.bootstrap_fingerprint,
        )
    }
}

/// Whether the record that was found is removed: only the one that was expected, so that the record of another
/// owner stays.
pub fn removes_record(found: Option<&OwnerRecord>, expected: &OwnerRecord) -> (r: bool)
    ensures
        r == (match found {
            Some(record) => record.view() == expected.view(),
            None => false,
        }),
{
    match found {
        Some(record) => record.same_as(expected),
        None => false,
    }
}

/// A character that stands in the name of a lock file as it is.
pub open spec fn name_char(c: char) -> bool {
    ||| 'a' <= c <= 'z'
    ||| 'A' <= c <= 'Z'
    ||| '0' <= c <= '9'
    ||| c == '.'
    ||| c == '-'
    ||| c == '_'
}

/// A text with `_` for every character that cannot stand in a name.
pub open spec fn sanitized(s: Seq<char>) -> Seq<char> {
    Seq::new(
        s.len(),
        |i: int|
            if name_char(s[i]) {
                s[i]
            } else {
                '_'
            },
    )
}

/// What names a gateway: its host and port, or its URL where that has none.
pub open spec fn gateway_name(parsed: ParsedUrl, url: Seq<char>) -> Seq<char> {
    match parsed {
        Ok(parts) => match (parts.host, parts.port) {
            (Some(host), Some(port)) => host + "-"@ + decimal(port as nat),
            _ => url,
        },
        Err(_) => url,
    }
}

/// The name of a gateway's files.
pub open spec fn lock_name_of(parsed: ParsedUrl, url: Seq<char>) -> Seq<char> {
    let name = sanitized(gateway_name(parsed, url));
    if name.len() == 0 {
        "unknown"@
    } else {
        name
    }
}

fn sanitize(s: &str) -> (r: String)
    ensures
        r@ == sanitized(s@),
{
    let cs = chars_of(s);
    let mut r = String::new();
    let mut i: usize = 0;
    assert(r@ =~= sanitized(s@).take(0));
    while i < cs.len()
        invariant
            i <= cs.len(),
            cs@ == s@,
            r@ == sanitized(s@).take(i as int),
        decreases cs.len() - i,
    {
        let c: char = cs[i];
        let plain = ('a' <= c && c <= 'z') || ('A' <= c && c <= 'Z') || ('0' <= c && c <= '9') || c == '.' || c == '-'
            || c == '_';
        assert(sanitized(s@).take(i + 1) =~= sanitized(s@).take(i as int).push(sanitized(s@)[i as int]));
        if plain {
            r.push(c);
        } else {
            r.push('_');
        }
        i += 1;
    }
    assert(sanitized(s@).take(i as int) =~= sanitized(s@));
    r
}

/// The name of the files of the gateway at `url`, which parses like this.
pub fn lock_name_for(parsed: &Result<UrlParts, String>, url: &str) -> (r: String)
    ensures
        r@ == lock_name_of(parsed_url(*parsed), url@),
{
    let raw = match parsed {
        Ok(parts) => match (&parts.host, parts.port) {
            (Some(host), Some(port)) => host.clone().concat("-").concat(decimal_text(port as u64).as_str()),
            _ => url.to_owned(),
        },
        Err(_) => url.to_owned(),
    };
    let name = sanitize(raw.as_str());
    if name.as_str().is_empty() {
        "unknown".to_owned()
    } else {
        name
    }
}

/// The name of the files of the gateway at `url`.
pub fn lock_name(url: &str) -> (r: String)
    ensures
        r@ == lock_name_of(url_parts(url@), url@),
        // What can stand as a name is its own name: a name that was made is found again by itself.
        is_name(url@) ==> r@ == url@,
{
    let parsed = parse_url(url);
    proof {
        if is_name(url@) {
            if url@.contains(':') {
                let i = url@.index_of(':');
                assert(name_char(url@[i]));
            }
            assert(sanitized(url@) =~= url@);
        }
    }
    lock_name_for(&parsed, url)
}

/// Whether a text can be the name of a gateway's files.
pub open spec fn is_name(s: Seq<char>) -> bool {
    s.len() > 0 && forall|i: int| 0 <= i < s.len() ==> name_char(#[trigger] s[i])
}

/// The name of a gateway's files is never empty and holds nothing but letters, digits, dots, hyphens and
/// underscores, so that it names a file in the directory that it is put into.
pub proof fn a_lock_name_is_a_file_name(parsed: ParsedUrl, url: Seq<char>)
    ensures
        is_name(lock_name_of(parsed, url)),
        !lock_name_of(parsed, url).contains('/'),
{
    reveal_strlit("unknown");
    assert("unknown"@.len() == 7);
    let name = lock_name_of(parsed, url);
    assert forall|i: int| 0 <= i < name.len() implies name_char(#[trigger] name[i]) by {}
    if name.contains('/') {
        let i = name.index_of('/');
        assert(name_char(name[i]));
    }
}

/// The name of a gateway's files is its own name, since it is no URL.
pub proof fn a_lock_name_is_its_own(parsed: ParsedUrl, url: Seq<char>, again: ParsedUrl)
    requires
        again is Err,
    ensures
        lock_name_of(again, lock_name_of(parsed, url)) == lock_name_of(parsed, url),
{
    let name = lock_name_of(parsed, url);
    a_lock_name_is_a_file_name(parsed, url);
    assert(sanitized(name) =~= name);
}

/// URLs of the same host and port, given or known from the scheme, name the same files, whatever else they hold.
pub proof fn one_gateway_has_one_name(a: UrlView, b: UrlView, url_a: Seq<char>, url_b: Seq<char>)
    requires
        a.host is Some && a.port is Some,
        a.host == b.host,
        a.port == b.port,
    ensures
        lock_name_of(Ok(a), url_a) == lock_name_of(Ok(b), url_b),
{
}

/// The file of the record of a gateway's owner.
pub fn owner_path(windows: bool, state: &str, url: &str) -> (r: String)
    ensures
        r@ == joined_path(windows, state@, "sidecar-"@ + lock_name_of(url_parts(url@), url@) + ".owner.json"@),
{
    let name = "sidecar-".to_owned().concat(lock_name(url).as_str()).concat(".owner.json");
    join_path(windows, state, name.as_str())
}

/// The file whose lock serializes the starts of a gateway.
pub fn lock_path(windows: bool, state: &str, url: &str) -> (r: String)
    ensures
        r@ == joined_path(windows, state@, "gateway-"@ + lock_name_of(url_parts(url@), url@) + ".lock"@),
{
    let name = "gateway-".to_owned().concat(lock_name(url).as_str()).concat(".lock");
    join_path(windows, state, name.as_str())
}

/// The file of the record of a gateway's recovery.
pub fn recovery_path(windows: bool, state: &str, url: &str) -> (r: String)
    ensures
        r@ == joined_path(windows, state@, "gateway-"@ + lock_name_of(url_parts(url@), url@) + ".recovery.json"@),
{
    let name = "gateway-".to_owned().concat(lock_name(url).as_str()).concat(".recovery.json");
    join_path(windows, state, name.as_str())
}

/// The directory of the bootstrap state, in the user's configuration directory where that is known.
pub fn state_dir(windows: bool, user_config_dir: Option<&str>) -> (r: Result<String, String>)
    ensures
        match user_config_dir {
            Some(dir) => r is Ok && r->Ok_0@ == joined_path(windows, dir@, "bootstrap"@),
            None => r is Err && r->Err_0@
                == "cannot determine the per-user NeMo Relay bootstrap state directory; set HOME or USERPROFILE"@,
        },
{
    match user_config_dir {
        Some(dir) => Ok(join_path(windows, dir, "bootstrap")),
        None => Err(
            "cannot determine the per-user NeMo Relay bootstrap state directory; set HOME or USERPROFILE".to_owned(),
        ),
    }
}

/// A process that is about to serve a gateway.
pub struct ServingProcess<'a> {
    /// Whether paths are written as on Windows.
    pub windows: bool,
    /// The directory of the bootstrap state, where one is set.
    pub state: Option<&'a str>,
    /// Whether that is an absolute path.
    pub state_is_absolute: bool,
    pub shutdown_token: Option<&'a str>,
    /// The address that it serves.
    pub address: &'a str,
    pub address_is_loopback: bool,
    pub fingerprint: Option<&'a str>,
    pub version: &'a str,
    pub protocol: u64,
    pub pid: u32,
}

/// Why a process cannot own the gateway that it serves.
pub open spec fn ownership_error(process: ServingProcess) -> Option<Seq<char>> {
    match process.state {
        None => Some(BOOTSTRAP_STATE_DIR_ENV@ + " is required for managed bootstrap"@),
        Some(state) => if !process.state_is_absolute {
            Some(BOOTSTRAP_STATE_DIR_ENV@ + " must be an absolute path, got "@ + state@)
        } else if process.shutdown_token is None || process.shutdown_token->Some_0@.len() == 0 {
            Some(BOOTSTRAP_SHUTDOWN_TOKEN_ENV@ + " is required for managed bootstrap"@)
        } else if !process.address_is_loopback {
            Some("managed bootstrap ownership requires a loopback address, got "@ + process.address@)
        } else {
            None
        },
    }
}

/// The record that a process publishes of itself.
pub open spec fn published(process: ServingProcess) -> OwnerView {
    OwnerView {
        service: "nemo-relay"@,
        version: process.version@,
        bootstrap_protocol: process.protocol,
        pid: process.pid,
        url: "http://"@ + process.address@,
        shutdown_token: process.shutdown_token->Some_0@,
        bootstrap_fingerprint: match process.fingerprint {
            Some(fingerprint) => if fingerprint@.len() > 0 {
                Some(fingerprint@)
            } else {
                None
            },
            None => None,
        },
    }
}

/// The record that a process publishes of itself, and the file that it goes to. A process that is not started
/// with a state directory or a shutdown token owns nothing.
pub fn publish_owner(process: &ServingProcess) -> (r: Result<Option<(String, OwnerRecord)>, String>)
    ensures
        if process.state is None && process.shutdown_token is None {
            r is Ok && r->Ok_0 is None
        } else {
            match ownership_error(*process) {
                Some(error) => r is Err && r->Err_0@ == error,
                None => {
                    &&& r is Ok && r->Ok_0 is Some
                    &&& r->Ok_0->Some_0.1.view() == published(*process)
                    &&& r->Ok_0->Some_0.0@ == joined_path(
                        process.windows,
                        process.state->Some_0@,
                        "sidecar-"@ + lock_name_of(
                            url_parts("http://"@ + process.address@),
                            "http://"@ + process.address@,
                        ) + ".owner.json"@,
                    )
                },
            }
        },
{
    if process.state.is_none() && process.shutdown_token.is_none() {
        return Ok(None);
    }
    let state = match process.state {
        None => {
            return Err(BOOTSTRAP_STATE_DIR_ENV.to_owned().concat(" is required for managed bootstrap"));
        },
        Some(state) => state,
    };
    if !process.state_is_absolute {
        return Err(BOOTSTRAP_STATE_DIR_ENV.to_owned().concat(" must be an absolute path, got ").concat(state));
    }
    let token = match process.shutdown_token {
        Some(token) => token,
        None => "",
    };
    proof {
        reveal_strlit("");
    }
    if token.is_empty() {
        return Err(BOOTSTRAP_SHUTDOWN_TOKEN_ENV.to_owned().concat(" is required for managed bootstrap"));
    }
    if !process.address_is_loopback {
        return Err(
            "managed bootstrap ownership requires a loopback address, got ".to_owned().concat(process.address),
        );
    }
    let url = "http://".to_owned().concat(process.address);
    let fingerprint = match process.fingerprint {
        Some(fingerprint) => {
            if fingerprint.is_empty() {
                None
            } else {
                Some(fingerprint)
            }
        },
        None => None,
    };
    let record = OwnerRecord::new(process.version, process.protocol, process.pid, url.as_str(), token, fingerprint);
    let path = owner_path(process.windows, state, url.as_str());
    Ok(Some((path, record)))
}

/// A process that was given a fingerprint publishes a record that the gateway can be stopped by.
pub proof fn a_published_owner_can_stop_its_gateway(process: ServingProcess)
    requires
        ownership_error(process) is None,
        process.fingerprint is Some,
        process.fingerprint->Some_0@.len() > 0,
    ensures
        owns(published(process), "http://"@ + process.address@, process.protocol),
{
}

/// What a look at a gateway found.
#[derive(Debug, Clone, Copy, PartialEq, Eq, Structural)]
pub enum RelayHealth {
    /// Nothing answers.
    Unavailable,
    /// The gateway that was expected answers.
    Compatible,
    /// A gateway of another kind answers.
    Incompatible,
    /// Something else answers.
    Foreign,
}

/// What stopping a gateway does next.
#[derive(Debug)]
pub enum StopStep {
    /// There is nothing to stop.
    Finished,
    /// Look at the gateway, which is to have this fingerprint.
    Probe { fingerprint: String },
    /// Ask the gateway of this fingerprint to stop, by this token.
    RequestShutdown { fingerprint: String, token: String },
    /// Look, after so many milliseconds, whether the gateway of this fingerprint has stopped.
    Watch { millis: u64, fingerprint: String },
    /// Remove the record of the owner.
    RemoveRecord,
    Failed(String),
}

/// The fingerprint that a record tells of its gateway, which a record that owns a gateway has.
fn fingerprint_of(owner: &OwnerRecord) -> (r: String)
    requires
        owner.bootstrap_fingerprint is Some,
    ensures
        r@ == owner.bootstrap_fingerprint->Some_0@,
{
    match &owner.bootstrap_fingerprint {
        Some(fingerprint) => fingerprint.clone(),
        None => unreached(),
    }
}

/// What follows the reading of the owner's record at `path`: a look at the gateway that the record tells of.
pub fn after_owner(owner: Option<&OwnerRecord>, url: &str, path: &str, protocol: u64) -> (r: StopStep)
    ensures
        match owner {
            None => r is Finished,
            Some(record) => if owns(record.view(), url@, protocol) {
                &&& r is Probe
                &&& record.bootstrap_fingerprint is Some
                &&& r->Probe_fingerprint@ == record.bootstrap_fingerprint->Some_0@
            } else {
                r is Failed && r->Failed_0@ == "refusing to stop gateway from invalid ownership record "@ + path@
            },
        },
{
    match owner {
        None => StopStep::Finished,
        Some(record) => {
            if record.valid_for(url, protocol) {
                StopStep::Probe { fingerprint: fingerprint_of(record) }
            } else {
                StopStep::Failed("refusing to stop gateway from invalid ownership record ".to_owned().concat(path))
            }
        },
    }
}

/// What follows the first look at the gateway of `owner`. Only the gateway that was expected is asked to stop, by
/// the fingerprint and the token of its owner.
pub fn after_probe(owner: &OwnerRecord, health: RelayHealth, url: &str) -> (r: StopStep)
    requires
        owner.bootstrap_fingerprint is Some,
    ensures
        match health {
            RelayHealth::Unavailable => r is RemoveRecord,
            RelayHealth::Compatible => {
                &&& r is RequestShutdown
                &&& r->RequestShutdown_fingerprint@ == owner.bootstrap_fingerprint->Some_0@
                &&& r->token@ == owner.shutdown_token@
            },
            _ => r is Failed && r->Failed_0@ == "refusing to stop an unverified process at managed gateway URL "@
                + url@,
        },
{
    match health {
        RelayHealth::Unavailable => StopStep::RemoveRecord,
        RelayHealth::Compatible => StopStep::RequestShutdown {
            fingerprint: fingerprint_of(owner),
            token: owner.shutdown_token.clone(),
        },
        _ => StopStep::Failed(
            "refusing to stop an unverified process at managed gateway URL ".to_owned().concat(url),
        ),
    }
}

/// What follows the request to stop the gateway of `owner`.
pub fn after_shutdown_request(owner: &OwnerRecord, requested: Result<(), String>) -> (r: StopStep)
    requires
        owner.bootstrap_fingerprint is Some,
    ensures
        match requested {
            Ok(_) => r is Watch && r->millis == 0 && r->Watch_fingerprint@ == owner.bootstrap_fingerprint->Some_0@,
            Err(error) => r is Failed && r->Failed_0@ == error@,
        },
{
    match requested {
        Ok(_) => StopStep::Watch { millis: 0, fingerprint: fingerprint_of(owner) },
        Err(error) => StopStep::Failed(error),
    }
}

/// What follows a look at the gateway of `owner`, which was asked to stop. `in_time` says whether time is left.
pub fn after_shutdown_probe(owner: &OwnerRecord, health: RelayHealth, in_time: bool, url: &str) -> (r: StopStep)
    requires
        owner.bootstrap_fingerprint is Some,
    ensures
        match health {
            RelayHealth::Unavailable => r is RemoveRecord,
            RelayHealth::Compatible => if in_time {
                &&& r is Watch
                &&& r->millis == SHUTDOWN_POLL_MILLIS
                &&& r->Watch_fingerprint@ == owner.bootstrap_fingerprint->Some_0@
            } else {
                r is Failed && r->Failed_0@ == "managed Relay gateway at "@ + url@ + " did not stop"@
            },
            _ => r is Failed && r->Failed_0@ == "a different process replaced the managed Relay gateway at "@ + url@
                + " during shutdown"@,
        },
{
    match health {
        RelayHealth::Unavailable => StopStep::RemoveRecord,
        RelayHealth::Compatible => {
            if in_time {
                StopStep::Watch { millis: SHUTDOWN_POLL_MILLIS, fingerprint: fingerprint_of(owner) }
            } else {
                StopStep::Failed("managed Relay gateway at ".to_owned().concat(url).concat(" did not stop"))
            }
        },
        _ => StopStep::Failed(
            "a different process replaced the managed Relay gateway at ".to_owned().concat(url).concat(
                " during shutdown",
            ),
        ),
    }
}

} // verus!
