//! The typed parameter objects of the five tools the gateway exposes.

use vstd::prelude::*;

verus! {

/// Parameters of the tools that fetch one resource or its publication
/// settings: the 64-bit global identifier of the record.
#[derive(Debug, Clone, Copy, PartialEq, Eq, Structural)]
pub struct GetResourceRequest {
    pub resource_gid: i64,
}

/// Parameters of the wishlist toggle: the publication's global identifier
/// and the new flag value.
#[derive(Debug, Clone, Copy, PartialEq, Eq, Structural)]
pub struct ToggleWishlistRequest {
    pub publication_gid: i64,
    pub wishlist_enabled: bool,
}

/// Parameters of the cover-image fetch: the image's URL relative to the
/// drive base URL and client identifier.
#[derive(Debug, Clone)]
pub struct GetImageRequest {
    pub rel_url: String,
}

} // verus!
