//! Addon manifests: the capability document an addon publishes, a decoder
//! that accepts both the compact and the verbose wire notation, and the
//! predicate that decides whether an addon can answer a request.

pub mod codec;
pub mod json;
pub mod manifest;
pub mod version;

pub use codec::{
    decode_manifest, decode_resource, decode_resources, encode_catalog, encode_manifest,
    encode_resource, DecodeError,
};
pub use json::Json;
pub use manifest::{
    Manifest, ManifestCatalog, ManifestExtra, ManifestExtraProp, ManifestResource, ResourceRef,
};
pub use version::Version;
