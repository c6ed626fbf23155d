//! The failures of fetching and resolving a package.

use vstd::prelude::*;

verus! {

/// Why a package could not be fetched from a registry, or why its latest
/// release could not be resolved.
#[derive(Debug, Clone, PartialEq, Eq)]
pub enum RegistryError {
    /// The request to the given address could not be completed.
    Network(String),
    /// The body answered from the given address is no package document.
    Serialization(String),
    /// The named package has no `latest` distribution tag.
    MissingLatestTag(String),
    /// The `latest` tag names a version (first field) that the named
    /// package (second field) does not hold.
    MissingVersionRelease(String, String),
}

/// A [`RegistryError`] with each string as the sequence of its characters.
pub ghost enum RegistryErrorView {
    Network(Seq<char>),
    Serialization(Seq<char>),
    MissingLatestTag(Seq<char>),
    MissingVersionRelease(Seq<char>, Seq<char>),
}

impl View for RegistryError {
    type V = RegistryErrorView;

    open spec fn view(&self) -> RegistryErrorView {
        match *self {
            RegistryError::Network(url) => RegistryErrorView::Network(url@),
            RegistryError::Serialization(url) => RegistryErrorView::Serialization(url@),
            RegistryError::MissingLatestTag(name) => RegistryErrorView::MissingLatestTag(name@),
            RegistryError::MissingVersionRelease(version, name) =>
                RegistryErrorView::MissingVersionRelease(version@, name@),
        }
    }
}

} // verus!
