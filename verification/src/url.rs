//! URLs, taken apart.

use vstd::prelude::*;
use vstd::string::*;

verus! {

/// The parts of a URL that decisions rest on.
#[derive(Debug)]
pub struct UrlParts {
    pub scheme: String,
    pub host: Option<String>,
    /// The port, given or known from the scheme.
    pub port: Option<u16>,
}

pub struct UrlView {
    pub scheme: Seq<char>,
    pub host: Option<Seq<char>>,
    pub port: Option<u16>,
}

impl UrlParts {
    pub open spec fn view(&self) -> UrlView {
        UrlView {
            scheme: self.scheme@,
            host: match self.host {
                Some(h) => Some(h@),
                None => None,
            },
            port: self.port,
        }
    }
}

/// What a parse of a URL gave.
pub type ParsedUrl = Result<UrlView, Seq<char>>;

pub open spec fn parsed_url(r: Result<UrlParts, String>) -> ParsedUrl {
    match r {
        Ok(parts) => Ok(parts.view()),
        Err(error) => Err(error@),
    }
}

pub open spec fn parsed_urls(s: Seq<Result<UrlParts, String>>) -> Seq<ParsedUrl> {
    Seq::new(s.len(), |i: int| parsed_url(s[i]))
}

/// The parts of the URL that a text writes, or what is wrong with it in words.
pub uninterp spec fn url_parts(text: Seq<char>) -> ParsedUrl;

/// `reqwest::Url::parse`, with the scheme, the host and the port (or the one known from the scheme)
/// of what it returns. The result is named `url_parts`. A text without a colon has no scheme, and is no URL.
#[verifier::external_body]
pub(crate) fn parse_url(text: &str) -> (r: Result<UrlParts, String>)
    ensures
        parsed_url(r) == url_parts(text@),
        !text@.contains(':') ==> r is Err,
{
    reqwest::Url::parse(text).map_err(|error| error.to_string()).map(|url| UrlParts {
        scheme: url.scheme().to_owned(),
        host: url.host_str().map(str::to_owned),
        port: url.port_or_known_default(),
    })
}

} // verus!
