//! A client library for the Microsoft Store: the DisplayCatalog URLs and
//! locales, the FE3 delivery protocol's request bodies and answer readers,
//! the resolution of package download locations, and the retry policy of
//! the HTTP client. Every function here is verified against its contract.

use vstd::prelude::*;

pub mod text;
pub mod enums;
pub mod codes;
pub mod tag_subtags;
pub mod locale;
pub mod helpers;
pub mod fe3_model;
pub mod error;
pub mod cli;
pub mod config;
pub mod xml;
pub mod fe3;
pub mod packages;
pub mod resolve;
pub mod progress;

pub use codes::{Lang, LanguageTag, Market};
pub use enums::{
    Addon, DCatEndpoint, DeviceFamily, DisplayCatalogResult, IdentifierType, ImagePurpose,
    PackageType, ProductKind,
};
pub use error::StoreError;
pub use fe3_model::{ApplicabilityBlob, ContentTargetPlatform, PackageInstance};
pub use helpers::{create_dcat_uri, endpoint_to_base_url, endpoint_to_search_url, string_to_package_type};
pub use locale::Locale;
pub use progress::ProgressEvent;

verus! {

} // verus!
