//! The fixed set of upstream path segments of the Webpublication REST API.

use vstd::prelude::*;

verus! {

/// One of the eleven fixed upstream path segments. Each groups related
/// upstream methods; the gateway appends `path()` plus a method name to the
/// configured base URL.
#[derive(Debug, Clone, Copy, PartialEq, Eq, Structural)]
pub enum ApiEndpoint {
    LoginWs,
    WorkspaceManagerWs,
    GenerationWs,
    CustomizationWs,
    EnrichmentWs,
    MembershipWs,
    LicenceWs,
    GalleryManagerWs,
    PageManagerWs,
    DriveSecurityWs,
    ImageWs,
}

/// The path segment that each endpoint contributes to an upstream URL.
pub open spec fn endpoint_path(e: ApiEndpoint) -> Seq<char> {
    match e {
        ApiEndpoint::LoginWs => "loginWs"@,
        ApiEndpoint::WorkspaceManagerWs => "workspaceManagerWs"@,
        ApiEndpoint::GenerationWs => "generationWs"@,
        ApiEndpoint::CustomizationWs => "customizationWs"@,
        ApiEndpoint::EnrichmentWs => "enrichmentWs"@,
        ApiEndpoint::MembershipWs => "membershipWs"@,
        ApiEndpoint::LicenceWs => "licenceWs"@,
        ApiEndpoint::GalleryManagerWs => "galleryManagerWs"@,
        ApiEndpoint::PageManagerWs => "pageManagerWs"@,
        ApiEndpoint::DriveSecurityWs => "driveSecurityWs"@,
        ApiEndpoint::ImageWs => "imageWs"@,
    }
}

impl ApiEndpoint {
    /// The upstream path segment for this endpoint.
    pub fn path(&self) -> (r: &str)
        ensures
            r@ == endpoint_path(*self),
    {
        match self {
            ApiEndpoint::LoginWs => "loginWs",
            ApiEndpoint::WorkspaceManagerWs => "workspaceManagerWs",
            ApiEndpoint::GenerationWs => "generationWs",
            ApiEndpoint::CustomizationWs => "customizationWs",
            ApiEndpoint::EnrichmentWs => "enrichmentWs",
            ApiEndpoint::MembershipWs => "membershipWs",
            ApiEndpoint::LicenceWs => "licenceWs",
            ApiEndpoint::GalleryManagerWs => "galleryManagerWs",
            ApiEndpoint::PageManagerWs => "pageManagerWs",
            ApiEndpoint::DriveSecurityWs => "driveSecurityWs",
            ApiEndpoint::ImageWs => "imageWs",
        }
    }
}

} // verus!
