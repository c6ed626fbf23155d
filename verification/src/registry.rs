//! Fetching a package's document: the request to make, and what the
//! registry's reply amounts to.

use crate::error::{RegistryError, RegistryErrorView};
use crate::package::Package;
use vstd::prelude::*;

verus! {

/// A `GET` request for a package's document.
#[derive(Debug, Clone, PartialEq, Eq)]
pub struct RegistryRequest {
    /// The address of the document.
    pub url: String,
    /// Header names and values, in the order to send them.
    pub headers: Vec<(String, String)>,
}

/// A [`RegistryRequest`] as plain sequences.
pub ghost struct RegistryRequestView {
    pub url: Seq<char>,
    pub headers: Seq<(Seq<char>, Seq<char>)>,
}

impl View for RegistryRequest {
    type V = RegistryRequestView;

    open spec fn view(&self) -> RegistryRequestView {
        RegistryRequestView {
            url: self.url@,
            headers: self.headers@.map_values(|h: (String, String)| (h.0@, h.1@)),
        }
    }
}

/// What came back from a registry.
pub enum RegistryReply {
    /// Nothing: the connection failed or timed out.
    Unreachable,
    /// A response with the given status code. `document` is the package
    /// that its body holds, or `None` where the body is no package
    /// document.
    Response { status: u16, document: Option<Package> },
}

/// The headers that identify the client and name the format it expects.
pub open spec fn registry_headers() -> Seq<(Seq<char>, Seq<char>)> {
    seq![("user-agent"@, "pacquet-cli"@), ("content-type"@, "application/json"@)]
}

/// Whether an HTTP status code reports success.
pub open spec fn is_success(status: u16) -> bool {
    200 <= status <= 299
}

/// What a reply to the request for `url` amounts to: the document, where
/// the response reports success and its body holds one; else the error,
/// which carries `url`.
pub open spec fn fetched(url: Seq<char>, reply: RegistryReply) -> Result<
    Package,
    RegistryErrorView,
> {
    match reply {
        RegistryReply::Unreachable => Err(RegistryErrorView::Network(url)),
        RegistryReply::Response { status, document } => if !is_success(status) {
            Err(RegistryErrorView::Network(url))
        } else {
            match document {
                Some(package) => Ok(package),
                None => Err(RegistryErrorView::Serialization(url)),
            }
        },
    }
}

impl RegistryRequest {
    /// The request that fetches the document at `package_url`.
    pub fn new(package_url: &str) -> (request: RegistryRequest)
        ensures
            request@ == (RegistryRequestView { url: package_url@, headers: registry_headers() }),
    {
        let mut headers: Vec<(String, String)> = Vec::new();
        headers.push(("user-agent".to_owned(), "pacquet-cli".to_owned()));
        headers.push(("content-type".to_owned(), "application/json".to_owned()));
        let request = RegistryRequest { url: package_url.to_owned(), headers };
        assert(request@.headers =~= registry_headers());
        request
    }
}

impl Package {
    /// The package that the registry answered to the request for
    /// `package_url`.
    ///
    /// Fails with [`RegistryError::Network`] where no response came or its
    /// status does not report success, and with
    /// [`RegistryError::Serialization`] where the response reports success
    /// and its body is no package document. Both errors carry
    /// `package_url`.
    pub fn from_registry(package_url: &str, reply: RegistryReply) -> (fetch: Result<
        Package,
        RegistryError,
    >)
        ensures
            match fetch {
                Ok(package) => fetched(package_url@, reply) == Ok::<Package, RegistryErrorView>(
                    package,
                ),
                Err(e) => fetched(package_url@, reply) == Err::<Package, RegistryErrorView>(e@),
            },
    {
        match reply {
            RegistryReply::Unreachable => Err(RegistryError::Network(package_url.to_owned())),
            RegistryReply::Response { status, document } => {
                if status < 200 || status > 299 {
                    Err(RegistryError::Network(package_url.to_owned()))
                } else {
                    match document {
                        Some(package) => Ok(package),
                        None => Err(RegistryError::Serialization(package_url.to_owned())),
                    }
                }
            },
        }
    }
}

} // verus!
