//! One cluster: who it is, how to ask it, and how to read what it says.

use crate::decode::{body_decoded, body_value, read_body, read_value, Resource};
use crate::endpoint::{origin_of, url_join, url_parse, Origin};
use crate::error::{DecodeError, JoinError, KubeError, TransportError};
use crate::json::Json;
use crate::request::{bearer, bearer_header, connector_for, Connector, Request, RequestView};
use crate::trust::TrustStore;
use std::time::Duration;
use url::ParseError;
use url::Url;
use vstd::prelude::*;

verus! {

/// The identity of one cluster. It is fixed when the value is made: its label,
/// the base address of its API server, the bearer token that every request
/// presents, and the path of the file that holds its CA certificates.
pub struct Kluster {
    pub name: String,
    endpoint: Url,
    token: String,
    cert_path: String,
}

impl Kluster {
    /// The human label of the cluster, as it was given.
    pub closed spec fn label(&self) -> Seq<char> {
        self.name@
    }

    /// The base address that request paths are resolved against.
    pub closed spec fn endpoint(&self) -> Url {
        self.endpoint
    }

    /// The bearer token, as it was given.
    pub closed spec fn token(&self) -> Seq<char> {
        self.token@
    }

    /// The path of the CA certificate file, as it was given.
    pub closed spec fn cert_path(&self) -> Seq<char> {
        self.cert_path@
    }

    /// Whether this is the cluster made of exactly these four parts.
    pub open spec fn is_made_of(
        &self,
        name: Seq<char>,
        cert_path: Seq<char>,
        endpoint: Url,
        token: Seq<char>,
    ) -> bool {
        &&& self.label() == name
        &&& self.cert_path() == cert_path
        &&& self.endpoint() == endpoint
        &&& self.token() == token
    }

    /// What the base address makes of a path, once the path has been resolved
    /// against it: the resolved address where it has the origin of the base
    /// address, and an error of the join kind where it has another or where
    /// the path did not resolve.
    pub open spec fn within(&self, joined: Result<Url, ParseError>) -> Result<Url, KubeError> {
        match joined {
            Ok(url) => if origin_of(url) == origin_of(self.endpoint()) {
                Ok(url)
            } else {
                Err(KubeError::UrlJoin(JoinError::OtherOrigin))
            },
            Err(cause) => Err(KubeError::UrlJoin(JoinError::Unresolvable(cause))),
        }
    }

    /// The address that a request for `path` goes to, or the reason for which
    /// it goes nowhere.
    pub open spec fn address(&self, path: Seq<char>) -> Result<Url, KubeError> {
        self.within(url_join(self.endpoint(), path))
    }

    /// What a GET for `path` looks like when the read may take `timeout`, or
    /// the reason for which there is no such request.
    pub open spec fn plan(&self, path: Seq<char>, timeout: Option<Duration>) -> Result<
        RequestView,
        KubeError,
    > {
        match self.address(path) {
            Ok(url) => Ok(
                RequestView {
                    url,
                    authorization: bearer(self.token()),
                    connector: connector_for(self.cert_path(), timeout),
                },
            ),
            Err(error) => Err(error),
        }
    }

    /// Whether `outcome` is what `plan` prescribes for `path` and `timeout`.
    pub open spec fn follows_plan(
        &self,
        path: Seq<char>,
        timeout: Option<Duration>,
        outcome: Result<Request, KubeError>,
    ) -> bool {
        match outcome {
            Ok(request) => self.plan(path, timeout) == Ok::<RequestView, KubeError>(request@),
            Err(error) => self.plan(path, timeout) == Err::<RequestView, KubeError>(error),
        }
    }

    /// What a call for `path` comes to once the transport has said `reply`:
    /// the failure to address the request, which comes before anything is
    /// sent; else the transport's failure; else what the body means to
    /// `meaning`.
    pub open spec fn outcome<V>(
        &self,
        path: Seq<char>,
        reply: Result<Vec<u8>, TransportError>,
        meaning: spec_fn(Seq<u8>) -> Result<V, DecodeError>,
    ) -> Result<V, KubeError> {
        match self.address(path) {
            Ok(_) => match reply {
                Ok(body) => match meaning(body@) {
                    Ok(value) => Ok(value),
                    Err(error) => Err(KubeError::Deserialization(error)),
                },
                Err(failure) => Err(KubeError::Transport(failure)),
            },
            Err(error) => Err(error),
        }
    }

    /// No request leaves for another scheme, host or port than the cluster's:
    /// whatever the path and the timeout, a request that is planned goes to an
    /// address of the base address's origin.
    pub proof fn requests_stay_at_the_endpoint(&self, path: Seq<char>, timeout: Option<Duration>)
        ensures
            self.plan(path, timeout) matches Ok(request) ==> origin_of(request.url) == origin_of(
                self.endpoint(),
            ),
    {
    }

    /// The read timeout decides the connector and nothing else: for one path,
    /// two calls either fail alike or ask for the same address with the same
    /// credential. Without a timeout the connector is the shared one.
    pub proof fn timeout_changes_the_connector_only(
        &self,
        path: Seq<char>,
        one: Option<Duration>,
        other: Option<Duration>,
    )
        ensures
            match (self.plan(path, one), self.plan(path, other)) {
                (Ok(a), Ok(b)) => a.url == b.url && a.authorization == b.authorization,
                (Err(a), Err(b)) => a == b,
                _ => false,
            },
            self.plan(path, None) matches Ok(request) ==> request.connector is Shared,
    {
    }

    /// Makes a cluster of an address that is already parsed. The name, the
    /// token and the certificate path are stored as they are.
    pub fn with_endpoint(name: &str, cert_path: &str, endpoint: Url, token: &str) -> (kluster:
        Kluster)
        ensures
            kluster.is_made_of(name@, cert_path@, endpoint, token@),
    {
        Kluster {
            name: name.to_owned(),
            endpoint,
            token: token.to_owned(),
            cert_path: cert_path.to_owned(),
        }
    }

    /// Makes a cluster of its four parts. `server` must be an absolute URL: if
    /// it does not parse, the parser's reason comes back as `UrlParse` and no
    /// cluster is made. The certificate file is not touched here.
    pub fn new(name: &str, cert_path: &str, server: &str, token: &str) -> (made: Result<
        Kluster,
        KubeError,
    >)
        ensures
            match url_parse(server@) {
                Ok(endpoint) => made matches Ok(kluster) && kluster.is_made_of(
                    name@,
                    cert_path@,
                    endpoint,
                    token@,
                ),
                Err(cause) => made matches Err(KubeError::UrlParse(e)) && e == cause,
            },
    {
        match Url::parse(server) {
            Ok(endpoint) => Ok(Kluster::with_endpoint(name, cert_path, endpoint, token)),
            Err(cause) => Err(KubeError::UrlParse(cause)),
        }
    }

    /// Builds this cluster's trust store from what reading its certificate
    /// file gave. The client does so once for the shared transport, and once
    /// more for every connector that a request asks to be made afresh.
    pub fn trust_store(&self, file: Result<Vec<u8>, String>) -> (loaded: Result<
        TrustStore,
        KubeError,
    >)
        ensures
            match file {
                Ok(pem) => loaded matches Ok(built) && built.is_built_from(self.cert_path(), pem@),
                Err(reason) => loaded matches Err(KubeError::CertificateLoad(text)) && text
                    == reason,
            },
    {
        TrustStore::load(self.cert_path.as_str(), file)
    }

    /// Makes a cluster and the trust store of its shared transport in one
    /// step. `file` is what reading the certificate file at `cert_path` gave:
    /// its bytes, or the reason for which it could not be read. The server
    /// address is judged first: where it does not parse, the error is
    /// `UrlParse`, whatever the file. Else a file that could not be read is a
    /// `CertificateLoad` error, and neither cluster nor store is made. Else
    /// both are made, the store as `TrustStore::build` makes it.
    pub fn open(
        name: &str,
        cert_path: &str,
        server: &str,
        token: &str,
        file: Result<Vec<u8>, String>,
    ) -> (opened: Result<(Kluster, TrustStore), KubeError>)
        ensures
            match url_parse(server@) {
                Err(cause) => opened matches Err(KubeError::UrlParse(e)) && e == cause,
                Ok(endpoint) => match file {
                    Err(reason) => opened matches Err(KubeError::CertificateLoad(text)) && text
                        == reason,
                    Ok(pem) => opened matches Ok(pair) && pair.0.is_made_of(
                        name@,
                        cert_path@,
                        endpoint,
                        token@,
                    ) && pair.1.is_built_from(cert_path@, pem@),
                },
            },
    {
        let kluster = Kluster::new(name, cert_path, server, token)?;
        let trust = kluster.trust_store(file)?;
        Ok((kluster, trust))
    }

    /// Judges a path that has been resolved against the base address. The
    /// resolved address is kept where its scheme, host and port are those of
    /// the base address. Where they are not, or where the path did not
    /// resolve, the error is of the join kind and there is nowhere to send to.
    pub fn keep_within(&self, joined: Result<Url, ParseError>) -> (kept: Result<Url, KubeError>)
        ensures
            kept == self.within(joined),
    {
        match joined {
            Ok(url) => {
                if Origin::of(&url).same(&Origin::of(&self.endpoint)) {
                    Ok(url)
                } else {
                    Err(KubeError::UrlJoin(JoinError::OtherOrigin))
                }
            },
            Err(cause) => Err(KubeError::UrlJoin(JoinError::Unresolvable(cause))),
        }
    }

    /// Resolves `path` against the base address. A path that names another
    /// scheme, host or port than the base address is refused, as is one that
    /// does not resolve at all.
    pub fn resolve(&self, path: &str) -> (address: Result<Url, KubeError>)
        ensures
            address == self.address(path@),
            address matches Ok(url) ==> origin_of(url) == origin_of(self.endpoint()),
    {
        self.keep_within(self.endpoint.join(path))
    }

    /// The GET for `path` over `connector`: the address that the path
    /// resolves to, and the bearer token in the `Authorization` header.
    fn request(&self, path: &str, connector: Connector) -> (outcome: Result<Request, KubeError>)
        ensures
            match self.address(path@) {
                Ok(url) => outcome matches Ok(request) && request@ == (RequestView {
                    url,
                    authorization: bearer(self.token()),
                    connector: connector@,
                }),
                Err(error) => outcome matches Err(e) && e == error,
            },
    {
        let url = self.resolve(path)?;
        Ok(Request { url, authorization: bearer_header(self.token.as_str()), connector })
    }

    /// The request that an ordinary call for `path` sends: the path resolved
    /// against the base address, the bearer token in the `Authorization`
    /// header, the shared connector. The request goes to the origin of the
    /// base address and nowhere else: a path that does not resolve, or that
    /// resolves to another scheme, host or port, gives `UrlJoin`, and nothing
    /// is to be sent.
    pub fn send_req(&self, path: &str) -> (outcome: Result<Request, KubeError>)
        ensures
            self.follows_plan(path@, None, outcome),
            outcome matches Ok(request) ==> origin_of(request.url) == origin_of(self.endpoint()),
    {
        self.request(path, Connector::Shared)
    }

    /// The request that a call for `path` sends when the caller reads the
    /// response itself. Without a timeout it is the ordinary request, over the
    /// shared connector: no connector is made. With one, the request asks for
    /// a connector of its own, built from this cluster's certificate file,
    /// whose reads give up after that time. Address and credential are the
    /// same either way, and the address has the origin of the base address.
    pub fn get_read(&self, path: &str, timeout: Option<Duration>) -> (outcome: Result<
        Request,
        KubeError,
    >)
        ensures
            self.follows_plan(path@, timeout, outcome),
            outcome matches Ok(request) ==> origin_of(request.url) == origin_of(self.endpoint()),
            timeout is None ==> (outcome matches Ok(request) ==> request.connector is Shared),
    {
        match timeout {
            Some(read_timeout) => self.request(
                path,
                Connector::Fresh { cert_path: self.cert_path.clone(), read_timeout },
            ),
            None => self.send_req(path),
        }
    }

    /// Reads the answer to an ordinary call for `path` as a value of shape
    /// `T`. `reply` is what the transport made of the request that `send_req`
    /// gives for the path: the whole response body, or its failure. A path
    /// for which `send_req` has no request fails here in the same way,
    /// whatever the reply; a failed transport is passed on; a body that is not
    /// JSON, or not of the shape, is a `Deserialization` error. Nothing is
    /// retried and no field is made up.
    pub fn get<T: Resource>(&self, path: &str, reply: Result<Vec<u8>, TransportError>) -> (got:
        Result<T, KubeError>)
        ensures
            match got {
                Ok(value) => self.outcome(path@, reply, |body: Seq<u8>| body_decoded::<T>(body))
                    == Ok::<T::V, KubeError>(value@),
                Err(error) => self.outcome(path@, reply, |body: Seq<u8>| body_decoded::<T>(body))
                    == Err::<T::V, KubeError>(error),
            },
    {
        let _ = self.resolve(path)?;
        match reply {
            Ok(body) => match read_body::<T>(body.as_slice()) {
                Ok(value) => Ok(value),
                Err(error) => Err(KubeError::Deserialization(error)),
            },
            Err(failure) => Err(KubeError::Transport(failure)),
        }
    }

    /// Reads the answer to an ordinary call for `path` as a JSON value of
    /// whatever shape, for a caller that does not know the shape beforehand.
    /// It fails as `get` does, except that any JSON document is accepted.
    pub fn get_value(&self, path: &str, reply: Result<Vec<u8>, TransportError>) -> (got: Result<
        Json,
        KubeError,
    >)
        ensures
            got == self.outcome(path@, reply, |body: Seq<u8>| body_value(body)),
    {
        let _ = self.resolve(path)?;
        match reply {
            Ok(body) => match read_value(body.as_slice()) {
                Ok(value) => Ok(value),
                Err(error) => Err(KubeError::Deserialization(error)),
            },
            Err(failure) => Err(KubeError::Transport(failure)),
        }
    }
}

} // verus!
