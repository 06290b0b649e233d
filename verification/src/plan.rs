//! Request plans: each tool call is translated into one upstream HTTP
//! request, described here as a plain value — method, URL, headers, query
//! parameters and optional JSON body. The surrounding process executes the
//! plan with its HTTP client and hands the outcome back to the library.

use vstd::prelude::*;
use crate::config::ApiConfig;
use crate::digits::{int_rep, i64_to_string};
use crate::endpoint::{endpoint_path, ApiEndpoint};
use crate::jsontext::{toggle_body, toggle_body_text};

verus! {

/// The HTTP method of a plan.
#[derive(Debug, Clone, Copy, PartialEq, Eq, Structural)]
pub enum HttpMethod {
    Get,
    Put,
}

/// One upstream HTTP request, fully determined: where to send it, with which
/// headers and query parameters, and with which body.
#[derive(Debug, Clone)]
pub struct HttpPlan {
    pub method: HttpMethod,
    pub url: String,
    pub headers: Vec<(String, String)>,
    pub query: Vec<(String, String)>,
    pub body: Option<String>,
}

/// A key/value pair reads as the given texts.
pub open spec fn pair_is(p: (String, String), key: Seq<char>, value: Seq<char>) -> bool {
    p.0@ == key && p.1@ == value
}

/// The URL of an upstream REST method: base URL, endpoint path segment, a
/// slash, and the method name.
pub open spec fn api_url_text(base: Seq<char>, e: ApiEndpoint, method: Seq<char>) -> Seq<char> {
    base + endpoint_path(e) + "/"@ + method
}

/// The URL of a drive (image store) object: drive base URL, client
/// identifier, a slash, and the relative URL.
pub open spec fn image_url_text(drive: Seq<char>, client_id: Seq<char>, rel: Seq<char>) -> Seq<
    char,
> {
    drive + client_id + "/"@ + rel
}

/// The session cookie sent with every REST request.
pub open spec fn wp_cookie_text(token: Seq<char>) -> Seq<char> {
    "WP_token="@ + token
}

/// The two headers of every REST request: a JSON content type and the
/// session cookie.
pub open spec fn api_headers_are(headers: Seq<(String, String)>, token: Seq<char>) -> bool {
    &&& headers.len() == 2
    &&& pair_is(headers[0], "Content-Type"@, "application/json"@)
    &&& pair_is(headers[1], "Cookie"@, wp_cookie_text(token))
}

/// Builds the URL of an upstream REST method.
pub fn api_url(config: &ApiConfig, endpoint: ApiEndpoint, method: &str) -> (r: String)
    ensures
        r@ == api_url_text(config.api_url@, endpoint, method@),
{
    let mut url = config.api_url.clone();
    url.append(endpoint.path());
    url.append("/");
    url.append(method);
    proof {
        assert(url@ =~= api_url_text(config.api_url@, endpoint, method@));
    }
    url
}

/// Builds the URL of a drive object.
pub fn image_url(config: &ApiConfig, rel_url: &str) -> (r: String)
    ensures
        r@ == image_url_text(config.drive_url@, config.client_id@, rel_url@),
{
    let mut url = config.drive_url.clone();
    url.append(config.client_id.as_str());
    url.append("/");
    url.append(rel_url);
    proof {
        assert(url@ =~= image_url_text(config.drive_url@, config.client_id@, rel_url@));
    }
    url
}

/// Builds the headers of a REST request.
fn api_headers(config: &ApiConfig) -> (r: Vec<(String, String)>)
    ensures
        api_headers_are(r@, config.wp_token@),
{
    let mut cookie = String::from_str("WP_token=");
    cookie.append(config.wp_token.as_str());
    proof {
        assert(cookie@ =~= wp_cookie_text(config.wp_token@));
    }
    let mut headers: Vec<(String, String)> = Vec::new();
    headers.push((String::from_str("Content-Type"), String::from_str("application/json")));
    headers.push((String::from_str("Cookie"), cookie));
    headers
}

/// The plan of the resource fetch: a GET of `getResource` on the workspace
/// manager endpoint, with the client identifier and the resource's global
/// identifier as query parameters.
pub fn plan_get_resource(config: &ApiConfig, resource_gid: i64) -> (p: HttpPlan)
    ensures
        p.method == HttpMethod::Get,
        p.url@ == api_url_text(config.api_url@, ApiEndpoint::WorkspaceManagerWs, "getResource"@),
        api_headers_are(p.headers@, config.wp_token@),
        p.query@.len() == 2,
        pair_is(p.query@[0], "clientId"@, config.client_id@),
        pair_is(p.query@[1], "resourceGId"@, int_rep(resource_gid as int)),
        p.body is None,
{
    let url = api_url(config, ApiEndpoint::WorkspaceManagerWs, "getResource");
    let mut query: Vec<(String, String)> = Vec::new();
    query.push((String::from_str("clientId"), config.client_id.clone()));
    query.push((String::from_str("resourceGId"), i64_to_string(resource_gid)));
    HttpPlan { method: HttpMethod::Get, url, headers: api_headers(config), query, body: None }
}

/// The plan of the publication-settings fetch: a GET of
/// `getPublicationSettings` on the generation endpoint, with the client
/// identifier and the publication's global identifier as query parameters.
pub fn plan_get_publication_settings(config: &ApiConfig, resource_gid: i64) -> (p: HttpPlan)
    ensures
        p.method == HttpMethod::Get,
        p.url@ == api_url_text(
            config.api_url@,
            ApiEndpoint::GenerationWs,
            "getPublicationSettings"@,
        ),
        api_headers_are(p.headers@, config.wp_token@),
        p.query@.len() == 2,
        pair_is(p.query@[0], "clientId"@, config.client_id@),
        pair_is(p.query@[1], "publicationGId"@, int_rep(resource_gid as int)),
        p.body is None,
{
    let url = api_url(config, ApiEndpoint::GenerationWs, "getPublicationSettings");
    let mut query: Vec<(String, String)> = Vec::new();
    query.push((String::from_str("clientId"), config.client_id.clone()));
    query.push((String::from_str("publicationGId"), i64_to_string(resource_gid)));
    HttpPlan { method: HttpMethod::Get, url, headers: api_headers(config), query, body: None }
}

/// The plan of the recent-resources listing: a GET of `getRecentResources`
/// on the workspace manager endpoint, asking for the first page of twenty
/// publications.
pub fn plan_get_recent_resources(config: &ApiConfig) -> (p: HttpPlan)
    ensures
        p.method == HttpMethod::Get,
        p.url@ == api_url_text(
            config.api_url@,
            ApiEndpoint::WorkspaceManagerWs,
            "getRecentResources"@,
        ),
        api_headers_are(p.headers@, config.wp_token@),
        p.query@.len() == 4,
        pair_is(p.query@[0], "clientId"@, config.client_id@),
        pair_is(p.query@[1], "include"@, "PUBLICATION"@),
        pair_is(p.query@[2], "itemsPerPage"@, "20"@),
        pair_is(p.query@[3], "pageNum"@, "0"@),
        p.body is None,
{
    let url = api_url(config, ApiEndpoint::WorkspaceManagerWs, "getRecentResources");
    let mut query: Vec<(String, String)> = Vec::new();
    query.push((String::from_str("clientId"), config.client_id.clone()));
    query.push((String::from_str("include"), String::from_str("PUBLICATION")));
    query.push((String::from_str("itemsPerPage"), String::from_str("20")));
    query.push((String::from_str("pageNum"), String::from_str("0")));
    HttpPlan { method: HttpMethod::Get, url, headers: api_headers(config), query, body: None }
}

/// The plan of the wishlist toggle: a PUT of `updatePublicationSettings` on
/// the generation endpoint, with the client identifier as a query parameter
/// and a JSON body holding the client identifier, the publication's global
/// identifier and the new flag value.
pub fn plan_toggle_wishlist(config: &ApiConfig, publication_gid: i64, wishlist_enabled: bool) -> (p:
    HttpPlan)
    ensures
        p.method == HttpMethod::Put,
        p.url@ == api_url_text(
            config.api_url@,
            ApiEndpoint::GenerationWs,
            "updatePublicationSettings"@,
        ),
        api_headers_are(p.headers@, config.wp_token@),
        p.query@.len() == 1,
        pair_is(p.query@[0], "clientId"@, config.client_id@),
        p.body matches Some(b) && b@ == toggle_body_text(
            config.client_id@,
            publication_gid as int,
            wishlist_enabled,
        ),
{
    let url = api_url(config, ApiEndpoint::GenerationWs, "updatePublicationSettings");
    let mut query: Vec<(String, String)> = Vec::new();
    query.push((String::from_str("clientId"), config.client_id.clone()));
    let body = toggle_body(config.client_id.as_str(), publication_gid, wishlist_enabled);
    HttpPlan {
        method: HttpMethod::Put,
        url,
        headers: api_headers(config),
        query,
        body: Some(body),
    }
}

/// The plan of the cover-image fetch: a GET of the drive object named by the
/// relative URL, authenticated by the drive token as a query parameter, with
/// no extra headers.
pub fn plan_get_cover_image(config: &ApiConfig, rel_url: &str) -> (p: HttpPlan)
    ensures
        p.method == HttpMethod::Get,
        p.url@ == image_url_text(config.drive_url@, config.client_id@, rel_url@),
        p.headers@.len() == 0,
        p.query@.len() == 1,
        pair_is(p.query@[0], "token"@, config.drive_token@),
        p.body is None,
{
    let url = image_url(config, rel_url);
    let mut query: Vec<(String, String)> = Vec::new();
    query.push((String::from_str("token"), config.drive_token.clone()));
    HttpPlan { method: HttpMethod::Get, url, headers: Vec::new(), query, body: None }
}

} // verus!
