//! A protocol-translation gateway library for the Webpublication REST API.
//!
//! The library holds the request-translation layer of an MCP (Model Context
//! Protocol) server: it turns typed tool parameters into upstream HTTP
//! request plans (URL, query parameters, headers, JSON body) and turns
//! upstream responses (status code, body) into tool-call results. Every
//! function here carries a contract that pins the translation down exactly.
//! The surrounding process (transport, HTTP client, async runtime) lives
//! outside the library.

pub mod config;
pub mod digits;
pub mod endpoint;
pub mod image;
pub mod jsonio;
pub mod jsontext;
pub mod models;
pub mod plan;
pub mod response;

pub use config::ApiConfig;
pub use endpoint::ApiEndpoint;
pub use models::GetImageRequest;
pub use models::GetResourceRequest;
pub use models::ToggleWishlistRequest;
