//! Registry metadata for a package manager: the document a registry holds
//! for one package, and the resolution of its `latest` distribution tag to a
//! release and to the address of that release's tarball.
//!
//! The library does no I/O. A caller performs the request that
//! [`RegistryRequest::new`] describes, reports what came back as a
//! [`RegistryReply`], and gets from [`Package::from_registry`] either the
//! document or the error that the reply amounts to.

pub mod error;
pub mod package;
pub mod registry;

pub use error::{RegistryError, RegistryErrorView};
pub use package::{
    Package, PackageDistribution, PackageDistributionView, PackageVersion, PackageVersionView,
    PackageView,
};
pub use registry::{RegistryReply, RegistryRequest, RegistryRequestView};
