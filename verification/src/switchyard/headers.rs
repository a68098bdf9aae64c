//! Headers of outgoing calls, given or taken from the environment.

use crate::json::{members_of, Json, JsonObject, JsonView, Members};
use crate::ordered::{has_key, lookup, StringMap};
use crate::text::{blank, debug_text, is_blank, quoted};
use vstd::prelude::*;
use vstd::string::*;

verus! {

/// The name of a header, as `reqwest` has it.
#[verifier::external_type_specification]
#[verifier::external_body]
pub struct ExHeaderName(reqwest::header::HeaderName);

/// The value of a header, as `reqwest` has it.
#[verifier::external_type_specification]
#[verifier::external_body]
pub struct ExHeaderValue(reqwest::header::HeaderValue);

/// The headers of a call, as `reqwest` has them.
#[verifier::external_type_specification]
#[verifier::external_body]
#[verifier::reject_recursive_types(T)]
pub struct ExHeaderMap<T>(reqwest::header::HeaderMap<T>);

/// The values that a header map holds at each name.
pub uninterp spec fn header_entries(
    map: reqwest::header::HeaderMap<reqwest::header::HeaderValue>,
) -> Map<reqwest::header::HeaderName, Seq<reqwest::header::HeaderValue>>;

pub type HeaderEntries = Map<reqwest::header::HeaderName, Seq<reqwest::header::HeaderValue>>;

/// The header name that a text writes, or what is wrong with it in words.
pub uninterp spec fn http_name(text: Seq<char>) -> Result<reqwest::header::HeaderName, Seq<char>>;

/// The header value that a text writes, or what is wrong with it in words.
pub uninterp spec fn http_value(text: Seq<char>) -> Result<reqwest::header::HeaderValue, Seq<char>>;

/// `HeaderName::from_bytes` on the bytes of a text: the result is named `http_name`.
#[verifier::external_body]
pub(crate) fn header_name(text: &str) -> (r: Result<reqwest::header::HeaderName, String>)
    ensures
        match r {
            Ok(name) => http_name(text@) == Ok::<reqwest::header::HeaderName, Seq<char>>(name),
            Err(error) => http_name(text@) == Err::<reqwest::header::HeaderName, Seq<char>>(error@),
        },
{
    reqwest::header::HeaderName::from_bytes(text.as_bytes()).map_err(|error| error.to_string())
}

/// `HeaderValue::from_str`: the result is named `http_value`.
#[verifier::external_body]
fn header_value(text: &str) -> (r: Result<reqwest::header::HeaderValue, String>)
    ensures
        match r {
            Ok(value) => http_value(text@) == Ok::<reqwest::header::HeaderValue, Seq<char>>(value),
            Err(error) => http_value(text@) == Err::<reqwest::header::HeaderValue, Seq<char>>(error@),
        },
{
    reqwest::header::HeaderValue::from_str(text).map_err(|error| error.to_string())
}

/// `HeaderMap::new`: no headers.
#[verifier::external_body]
fn no_headers() -> (r: reqwest::header::HeaderMap<reqwest::header::HeaderValue>)
    ensures
        header_entries(r) == HeaderEntries::empty(),
{
    reqwest::header::HeaderMap::new()
}

/// `HeaderMap::insert`: the name has this one value, whatever it had. The map panics when it would grow
/// beyond what it can hold; with at most 6553 names in it, it does not.
#[verifier::external_body]
fn put_header(
    map: &mut reqwest::header::HeaderMap<reqwest::header::HeaderValue>,
    name: reqwest::header::HeaderName,
    value: reqwest::header::HeaderValue,
)
    requires
        header_entries(*old(map)).dom().len() <= 6553,
    ensures
        header_entries(*final(map)) == header_entries(*old(map)).insert(name, seq![value]),
{
    map.insert(name, value);
}

/// `HeaderMap::remove`: every value that the name had is gone, and nothing else.
#[verifier::external_body]
pub(crate) fn drop_header(
    map: &mut reqwest::header::HeaderMap<reqwest::header::HeaderValue>,
    name: &reqwest::header::HeaderName,
)
    ensures
        header_entries(*final(map)) == header_entries(*old(map)).remove(*name),
{
    map.remove(name);
}

/// The headers with one more, or what is wrong with it.
pub open spec fn with_header(entries: HeaderEntries, name: Seq<char>, value: Seq<char>) -> Result<HeaderEntries, Seq<char>> {
    match http_name(name) {
        Err(error) => Err("invalid header name: "@ + error),
        Ok(n) => match http_value(value) {
            Err(error) => Err("invalid header value: "@ + error),
            Ok(v) => Ok(entries.insert(n, seq![v])),
        },
    }
}

/// Puts a header into `headers`, in place of the values that its name had.
pub fn insert_http_header(
    headers: &mut reqwest::header::HeaderMap<reqwest::header::HeaderValue>,
    name: &str,
    value: &str,
) -> (r: Result<(), String>)
    requires
        header_entries(*old(headers)).dom().len() <= 6553,
    ensures
        match r {
            Ok(_) => with_header(header_entries(*old(headers)), name@, value@) == Ok::<HeaderEntries, Seq<char>>(
                header_entries(*final(headers)),
            ),
            Err(error) => with_header(header_entries(*old(headers)), name@, value@) == Err::<HeaderEntries, Seq<char>>(
                error@,
            ) && header_entries(*final(headers)) == header_entries(*old(headers)),
        },
{
    let name = match header_name(name) {
        Ok(name) => name,
        Err(error) => {
            return Err("invalid header name: ".to_owned().concat(error.as_str()));
        },
    };
    let value = match header_value(value) {
        Ok(value) => value,
        Err(error) => {
            return Err("invalid header value: ".to_owned().concat(error.as_str()));
        },
    };
    put_header(headers, name, value);
    Ok(())
}

pub type TextEntries = Seq<(Seq<char>, Seq<char>)>;

/// The value of a header that is taken from the environment variable `variable`, or why there is none.
pub open spec fn environment_value(
    what: Seq<char>,
    fixed: TextEntries,
    name: Seq<char>,
    variable: Seq<char>,
    environment: TextEntries,
) -> Result<Seq<char>, Seq<char>> {
    if has_key(fixed, name) {
        Err(what + debug_text(name) + " cannot appear in both headers and header_env"@)
    } else {
        match lookup(environment, variable) {
            None => Err("environment variable "@ + debug_text(variable) + " is not set"@),
            Some(value) => if blank(value) {
                Err("environment variable "@ + debug_text(variable) + " is blank"@)
            } else {
                Ok(value)
            },
        }
    }
}

fn resolve_environment(
    what: &str,
    fixed: &StringMap<String>,
    name: &str,
    variable: &str,
    environment: &StringMap<String>,
) -> (r: Result<String, String>)
    ensures
        match r {
            Ok(value) => environment_value(what@, fixed.view(), name@, variable@, environment.view()) == Ok::<
                Seq<char>,
                Seq<char>,
            >(value@),
            Err(error) => environment_value(what@, fixed.view(), name@, variable@, environment.view()) == Err::<
                Seq<char>,
                Seq<char>,
            >(error@),
        },
{
    if fixed.contains_key(name) {
        return Err(
            what.to_owned().concat(quoted(name).as_str()).concat(" cannot appear in both headers and header_env"),
        );
    }
    match environment.get(variable) {
        None => Err("environment variable ".to_owned().concat(quoted(variable).as_str()).concat(" is not set")),
        Some(value) => {
            if is_blank(value.as_str()) {
                Err("environment variable ".to_owned().concat(quoted(variable).as_str()).concat(" is blank"))
            } else {
                Ok(value.clone())
            }
        },
    }
}

/// The first `n` given headers, or what is wrong with the first wrong one.
pub open spec fn fixed_headers(fixed: TextEntries, n: int) -> Result<HeaderEntries, Seq<char>>
    decreases n,
{
    if n <= 0 {
        Ok(HeaderEntries::empty())
    } else {
        match fixed_headers(fixed, n - 1) {
            Err(error) => Err(error),
            Ok(entries) => with_header(entries, fixed[n - 1].0, fixed[n - 1].1),
        }
    }
}

/// All given headers and the first `n` from the environment, or what is wrong with the first wrong one.
pub open spec fn call_headers(
    fixed: TextEntries,
    variables: TextEntries,
    environment: TextEntries,
    n: int,
) -> Result<HeaderEntries, Seq<char>>
    decreases n,
{
    if n <= 0 {
        fixed_headers(fixed, fixed.len() as int)
    } else {
        match call_headers(fixed, variables, environment, n - 1) {
            Err(error) => Err(error),
            Ok(entries) => match environment_value(
                "header "@,
                fixed,
                variables[n - 1].0,
                variables[n - 1].1,
                environment,
            ) {
                Err(error) => Err(error),
                Ok(value) => with_header(entries, variables[n - 1].0, value),
            },
        }
    }
}

proof fn call_headers_stop(fixed: TextEntries, variables: TextEntries, environment: TextEntries, n: int, m: int)
    requires
        n <= m,
        call_headers(fixed, variables, environment, n) is Err,
    ensures
        call_headers(fixed, variables, environment, m) == call_headers(fixed, variables, environment, n),
    decreases m - n,
{
    if n < m {
        call_headers_stop(fixed, variables, environment, n, m - 1);
        if m <= 0 {
            assert(call_headers(fixed, variables, environment, m) == call_headers(fixed, variables, environment, n));
        }
    }
}

proof fn fixed_headers_stop(fixed: TextEntries, n: int, m: int)
    requires
        n <= m,
        fixed_headers(fixed, n) is Err,
    ensures
        fixed_headers(fixed, m) == fixed_headers(fixed, n),
    decreases m - n,
{
    if n < m {
        fixed_headers_stop(fixed, n, m - 1);
    }
}

/// The headers of a call: the given ones, then those whose values stand in `environment` under the
/// variables that `environment_headers` names.
pub fn resolve_headers(
    static_headers: &StringMap<String>,
    environment_headers: &StringMap<String>,
    environment: &StringMap<String>,
) -> (r: Result<reqwest::header::HeaderMap<reqwest::header::HeaderValue>, String>)
    requires
        static_headers.view().len() + environment_headers.view().len() <= 6554,
    ensures
        ({
            let headers = call_headers(
                static_headers.view(),
                environment_headers.view(),
                environment.view(),
                environment_headers.view().len() as int,
            );
            match r {
                Ok(map) => headers == Ok::<HeaderEntries, Seq<char>>(header_entries(map)),
                Err(error) => headers == Err::<HeaderEntries, Seq<char>>(error@),
            }
        }),
{
    let ghost fixed = static_headers.view();
    let ghost variables = environment_headers.view();
    let mut headers = no_headers();
    let mut i: usize = 0;
    while i < static_headers.len()
        invariant
            i <= static_headers.view().len(),
            static_headers.view().len() + environment_headers.view().len() <= 6554,
            fixed == static_headers.view(),
            variables == environment_headers.view(),
            fixed_headers(fixed, i as int) == Ok::<HeaderEntries, Seq<char>>(header_entries(headers)),
            header_entries(headers).dom().finite(),
            header_entries(headers).dom().len() <= i,
        decreases static_headers.view().len() - i,
    {
        match insert_http_header(&mut headers, static_headers.key_at(i), static_headers.value_at(i).as_str()) {
            Ok(_) => {},
            Err(error) => {
                proof {
                    fixed_headers_stop(fixed, i + 1, fixed.len() as int);
                    assert(call_headers(fixed, variables, environment.view(), 0) is Err);
                    call_headers_stop(fixed, variables, environment.view(), 0, variables.len() as int);
                }
                return Err(error);
            },
        }
        i += 1;
    }
    let mut j: usize = 0;
    while j < environment_headers.len()
        invariant
            j <= environment_headers.view().len(),
            static_headers.view().len() + environment_headers.view().len() <= 6554,
            fixed == static_headers.view(),
            variables == environment_headers.view(),
            call_headers(fixed, variables, environment.view(), j as int) == Ok::<HeaderEntries, Seq<char>>(
                header_entries(headers),
            ),
            header_entries(headers).dom().finite(),
            header_entries(headers).dom().len() <= fixed.len() + j,
        decreases environment_headers.view().len() - j,
    {
        let name = environment_headers.key_at(j);
        let value = match resolve_environment(
            "header ",
            static_headers,
            name,
            environment_headers.value_at(j).as_str(),
            environment,
        ) {
            Ok(value) => value,
            Err(error) => {
                proof {
                    call_headers_stop(fixed, variables, environment.view(), j + 1, variables.len() as int);
                }
                return Err(error);
            },
        };
        match insert_http_header(&mut headers, name, value.as_str()) {
            Ok(_) => {},
            Err(error) => {
                proof {
                    call_headers_stop(fixed, variables, environment.view(), j + 1, variables.len() as int);
                }
                return Err(error);
            },
        }
        j += 1;
    }
    Ok(headers)
}

/// Given headers, as JSON members.
pub open spec fn fixed_members(fixed: TextEntries) -> Members {
    Seq::new(fixed.len(), |i: int| (fixed[i].0, JsonView::Text(fixed[i].1)))
}

/// All given headers and the first `n` from the environment as JSON members, or what is wrong with the
/// first wrong one.
pub open spec fn target_members(
    fixed: TextEntries,
    variables: TextEntries,
    environment: TextEntries,
    n: int,
) -> Result<Members, Seq<char>>
    decreases n,
{
    if n <= 0 {
        Ok(fixed_members(fixed))
    } else {
        match target_members(fixed, variables, environment, n - 1) {
            Err(error) => Err(error),
            Ok(members) => match environment_value(
                "target header "@,
                fixed,
                variables[n - 1].0,
                variables[n - 1].1,
                environment,
            ) {
                Err(error) => Err(error),
                Ok(value) => Ok(members.push((variables[n - 1].0, JsonView::Text(value)))),
            },
        }
    }
}

proof fn target_members_stop(fixed: TextEntries, variables: TextEntries, environment: TextEntries, n: int, m: int)
    requires
        n <= m,
        target_members(fixed, variables, environment, n) is Err,
    ensures
        target_members(fixed, variables, environment, m) == target_members(fixed, variables, environment, n),
    decreases m - n,
{
    if n < m {
        target_members_stop(fixed, variables, environment, n, m - 1);
    }
}

/// The headers of a target as a JSON object: the given ones, then those whose values stand in
/// `environment` under the variables that `environment_headers` names.
pub fn resolve_json_headers(
    static_headers: &StringMap<String>,
    environment_headers: &StringMap<String>,
    environment: &StringMap<String>,
) -> (r: Result<JsonObject, String>)
    ensures
        ({
            let members = target_members(
                static_headers.view(),
                environment_headers.view(),
                environment.view(),
                environment_headers.view().len() as int,
            );
            match r {
                Ok(object) => members is Ok && object.view() == members_of(members->Ok_0),
                Err(error) => members == Err::<Members, Seq<char>>(error@),
            }
        }),
{
    let ghost fixed = static_headers.view();
    let ghost variables = environment_headers.view();
    let mut headers = JsonObject::new();
    let mut i: usize = 0;
    assert(fixed_members(fixed).take(0) =~= Members::empty());
    while i < static_headers.len()
        invariant
            i <= static_headers.view().len(),
            fixed == static_headers.view(),
            headers.view() == members_of(fixed_members(fixed).take(i as int)),
        decreases static_headers.view().len() - i,
    {
        headers.insert(static_headers.key_at(i).to_owned(), Json::Text(static_headers.value_at(i).clone()));
        assert(fixed_members(fixed).take(i + 1).drop_last() =~= fixed_members(fixed).take(i as int));
        i += 1;
    }
    assert(fixed_members(fixed).take(i as int) =~= fixed_members(fixed));
    let mut j: usize = 0;
    while j < environment_headers.len()
        invariant
            j <= environment_headers.view().len(),
            fixed == static_headers.view(),
            variables == environment_headers.view(),
            target_members(fixed, variables, environment.view(), j as int) is Ok,
            headers.view() == members_of(target_members(fixed, variables, environment.view(), j as int)->Ok_0),
        decreases environment_headers.view().len() - j,
    {
        let name = environment_headers.key_at(j);
        match resolve_environment(
            "target header ",
            static_headers,
            name,
            environment_headers.value_at(j).as_str(),
            environment,
        ) {
            Ok(value) => {
                let ghost members = target_members(fixed, variables, environment.view(), j as int)->Ok_0;
                assert(members.push((name@, JsonView::Text(value@))).drop_last() =~= members);
                headers.insert(name.to_owned(), Json::Text(value));
            },
            Err(error) => {
                proof {
                    target_members_stop(fixed, variables, environment.view(), j + 1, variables.len() as int);
                }
                return Err(error);
            },
        }
        j += 1;
    }
    Ok(headers)
}

} // verus!
