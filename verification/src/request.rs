//! The one request that the client makes: an authenticated GET.

use std::time::Duration;
use url::Url;
use vstd::prelude::*;
use vstd::string::StringExecFns;

verus! {

/// The value of the `Authorization` header that presents `token`.
pub open spec fn bearer(token: Seq<char>) -> Seq<char> {
    "Bearer "@ + token
}

/// Builds the value of the `Authorization` header for `token`. The token is
/// taken as it is: nothing in it is checked or escaped.
pub fn bearer_header(token: &str) -> (header: String)
    ensures
        header@ == bearer(token@),
{
    String::from_str("Bearer ").concat(token)
}

/// Which connection carries a request.
#[derive(Debug)]
pub enum Connector {
    /// The transport that was set up with the client and serves all its
    /// ordinary calls.
    Shared,
    /// A connector of its own, made for this one request from the CA
    /// certificates at `cert_path`, whose reads give up after `read_timeout`.
    Fresh { cert_path: String, read_timeout: Duration },
}

/// A `Connector`, with its text as a sequence of characters.
pub enum ConnectorView {
    Shared,
    Fresh { cert_path: Seq<char>, read_timeout: Duration },
}

impl View for Connector {
    type V = ConnectorView;

    open spec fn view(&self) -> ConnectorView {
        match *self {
            Connector::Shared => ConnectorView::Shared,
            Connector::Fresh { cert_path, read_timeout } => ConnectorView::Fresh {
                cert_path: cert_path@,
                read_timeout,
            },
        }
    }
}

/// A GET without a body, ready to be sent: where it goes, what it presents as
/// its credential, and over which connection it travels.
#[derive(Debug)]
pub struct Request {
    pub url: Url,
    pub authorization: String,
    pub connector: Connector,
}

/// A `Request`, with its text as sequences of characters.
pub struct RequestView {
    pub url: Url,
    pub authorization: Seq<char>,
    pub connector: ConnectorView,
}

impl View for Request {
    type V = RequestView;

    open spec fn view(&self) -> RequestView {
        RequestView {
            url: self.url,
            authorization: self.authorization@,
            connector: self.connector@,
        }
    }
}

/// The connector that a call with the given read timeout travels over: the
/// shared one without a timeout, a fresh one with it.
pub open spec fn connector_for(cert_path: Seq<char>, timeout: Option<Duration>) -> ConnectorView {
    match timeout {
        None => ConnectorView::Shared,
        Some(read_timeout) => ConnectorView::Fresh { cert_path, read_timeout },
    }
}

} // verus!
