//! Addresses: the base URL of a cluster and the URLs of the resources below it.
//!
//! Parsing and resolving URLs is the work of the `url` crate. This module
//! declares its types, gives each of its functions that the client calls a
//! name for what it returns, and states that the function returns exactly
//! that. What the client adds is the origin of an address, as plain values,
//! and the comparison of two origins.

use url::ParseError;
use url::Url;
use vstd::prelude::*;

verus! {

/// `url::Url`, a parsed URL record. Nothing inside it is visible to proofs.
#[verifier::external_type_specification]
#[verifier::external_body]
pub struct ExUrl(Url);

/// `url::ParseError`, the reason for which a text is not a URL.
#[verifier::external_type_specification]
#[verifier::external_body]
pub struct ExParseError(ParseError);

/// What `url::Url::parse` makes of `text`.
pub uninterp spec fn url_parse(text: Seq<char>) -> Result<Url, ParseError>;

/// What `url::Url::join` makes of `reference`, read against `base`.
pub uninterp spec fn url_join(base: Url, reference: Seq<char>) -> Result<Url, ParseError>;

/// `url::Url::parse` reads an absolute URL. It depends on its input alone, so
/// its result is `url_parse` of the input's characters; nothing more is claimed.
pub assume_specification[ Url::parse ](input: &str) -> (r: Result<Url, ParseError>)
    ensures
        r == url_parse(input@),
;

/// `url::Url::join` reads `input` as a URL reference with `base` as its base.
/// It depends on the two alone, so its result is `url_join` of them; nothing
/// more is claimed.
pub assume_specification[ Url::join ](base: &Url, input: &str) -> (r: Result<Url, ParseError>)
    ensures
        r == url_join(*base, input@),
;

/// What `url::Url::scheme` gives for `url`: the scheme, in lower case and
/// without the colon.
pub uninterp spec fn url_scheme(url: Url) -> Seq<char>;

/// What `url::Url::host_str` gives for `url`: the host as it is written in the
/// URL, if the URL has one.
pub uninterp spec fn url_host(url: Url) -> Option<Seq<char>>;

/// What `url::Url::port_or_known_default` gives for `url`: the port that is
/// written in the URL, else the port that the scheme is known for, if any.
pub uninterp spec fn url_port(url: Url) -> Option<u16>;

/// `url::Url::scheme` hands out the scheme of the URL; it reads the URL and
/// nothing else.
pub assume_specification<'a>[ Url::scheme ](url: &'a Url) -> (scheme: &'a str)
    ensures
        scheme@ == url_scheme(*url),
;

/// `url::Url::host_str` hands out the host of the URL as text, or `None` for
/// a URL without a host; it reads the URL and nothing else.
pub assume_specification<'a>[ Url::host_str ](url: &'a Url) -> (host: Option<&'a str>)
    ensures
        match host {
            Some(text) => url_host(*url) == Some(text@),
            None => url_host(*url) is None,
        },
;

/// `url::Url::port_or_known_default` hands out the port of the URL, or the
/// default port of its scheme; it reads the URL and nothing else.
pub assume_specification[ Url::port_or_known_default ](url: &Url) -> (port: Option<u16>)
    ensures
        port == url_port(*url),
;

/// Where an address leads: the scheme, the host and the port. Two addresses
/// with one origin reach the same server in the same way.
#[derive(Debug)]
pub struct Origin {
    pub scheme: String,
    pub host: Option<String>,
    pub port: Option<u16>,
}

/// An `Origin`, with its text as sequences of characters.
pub struct OriginView {
    pub scheme: Seq<char>,
    pub host: Option<Seq<char>>,
    pub port: Option<u16>,
}

impl View for Origin {
    type V = OriginView;

    open spec fn view(&self) -> OriginView {
        OriginView {
            scheme: self.scheme@,
            host: match self.host {
                Some(host) => Some(host@),
                None => None,
            },
            port: self.port,
        }
    }
}

/// The origin of `url`.
pub open spec fn origin_of(url: Url) -> OriginView {
    OriginView { scheme: url_scheme(url), host: url_host(url), port: url_port(url) }
}

impl Origin {
    /// Reads the origin off an address.
    pub fn of(url: &Url) -> (origin: Origin)
        ensures
            origin@ == origin_of(*url),
    {
        let host = match url.host_str() {
            Some(text) => Some(text.to_owned()),
            None => None,
        };
        Origin { scheme: url.scheme().to_owned(), host, port: url.port_or_known_default() }
    }

    /// Whether two origins are one: the same scheme, the same host or none on
    /// either side, the same port or none on either side.
    pub fn same(&self, other: &Origin) -> (same: bool)
        ensures
            same == (self@ == other@),
    {
        let hosts = match (&self.host, &other.host) {
            (Some(mine), Some(theirs)) => *mine == *theirs,
            (None, None) => true,
            _ => false,
        };
        let ports = match (self.port, other.port) {
            (Some(mine), Some(theirs)) => mine == theirs,
            (None, None) => true,
            _ => false,
        };
        self.scheme == other.scheme && hosts && ports
    }
}

} // verus!
