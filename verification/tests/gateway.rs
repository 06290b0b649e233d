use mcp_webpublication_server::config::{ApiConfig, ConfigError};
use mcp_webpublication_server::digits::{i64_to_string, u64_to_string};
use mcp_webpublication_server::endpoint::ApiEndpoint;
use mcp_webpublication_server::image::{finish_image_tool, mime_type_for, str_ends_with};
use mcp_webpublication_server::jsontext::{json_quote, toggle_body};
use mcp_webpublication_server::plan::{
    plan_get_cover_image, plan_get_publication_settings, plan_get_recent_resources,
    plan_get_resource, plan_toggle_wishlist, HttpMethod,
};
use mcp_webpublication_server::response::{finish_json_tool, status_is_success, ToolError};

fn test_config() -> ApiConfig {
    ApiConfig {
        api_url: String::from("https://api.example.com/ws/"),
        drive_url: String::from("https://drive.example.com/"),
        client_id: String::from("client-7"),
        wp_token: String::from("tok-123"),
        drive_token: String::from("drive-tok"),
    }
}

#[test]
fn endpoint_paths() {
    assert_eq!(ApiEndpoint::LoginWs.path(), "loginWs");
    assert_eq!(ApiEndpoint::WorkspaceManagerWs.path(), "workspaceManagerWs");
    assert_eq!(ApiEndpoint::GenerationWs.path(), "generationWs");
    assert_eq!(ApiEndpoint::CustomizationWs.path(), "customizationWs");
    assert_eq!(ApiEndpoint::EnrichmentWs.path(), "enrichmentWs");
    assert_eq!(ApiEndpoint::MembershipWs.path(), "membershipWs");
    assert_eq!(ApiEndpoint::LicenceWs.path(), "licenceWs");
    assert_eq!(ApiEndpoint::GalleryManagerWs.path(), "galleryManagerWs");
    assert_eq!(ApiEndpoint::PageManagerWs.path(), "pageManagerWs");
    assert_eq!(ApiEndpoint::DriveSecurityWs.path(), "driveSecurityWs");
    assert_eq!(ApiEndpoint::ImageWs.path(), "imageWs");
}

#[test]
fn decimal_text() {
    assert_eq!(u64_to_string(0), "0");
    assert_eq!(u64_to_string(7), "7");
    assert_eq!(u64_to_string(205), "205");
    assert_eq!(u64_to_string(u64::MAX), "18446744073709551615");
    assert_eq!(i64_to_string(2473843), "2473843");
    assert_eq!(i64_to_string(-1), "-1");
    assert_eq!(i64_to_string(i64::MIN), "-9223372036854775808");
    assert_eq!(i64_to_string(i64::MAX), "9223372036854775807");
}

#[test]
fn json_quoting() {
    assert_eq!(json_quote("plain"), "\"plain\"");
    assert_eq!(json_quote(""), "\"\"");
    assert_eq!(json_quote("a\"b"), "\"a\\\"b\"");
    assert_eq!(json_quote("a\\b"), "\"a\\\\b\"");
    assert_eq!(json_quote("a\nb\rc\td"), "\"a\\nb\\rc\\td\"");
    assert_eq!(json_quote("\u{8}\u{c}"), "\"\\b\\f\"");
    assert_eq!(json_quote("\u{1}\u{1f}"), "\"\\u0001\\u001f\"");
    assert_eq!(json_quote("héllo"), "\"héllo\"");
}

#[test]
fn toggle_body_is_exact_json() {
    assert_eq!(
        toggle_body("client-7", 2473843, true),
        "{\"clientId\":\"client-7\",\"globalId\":2473843,\"wishlistEnabled\":true}"
    );
    assert_eq!(
        toggle_body("c\"x", -5, false),
        "{\"clientId\":\"c\\\"x\",\"globalId\":-5,\"wishlistEnabled\":false}"
    );
}

#[test]
fn toggle_body_parses_back() {
    let body = toggle_body("cl\\ient\n", -42, true);
    let v: serde_json::Value = serde_json::from_str(&body).unwrap();
    assert_eq!(v["clientId"], serde_json::Value::String(String::from("cl\\ient\n")));
    assert_eq!(v["globalId"], serde_json::Value::from(-42i64));
    assert_eq!(v["wishlistEnabled"], serde_json::Value::Bool(true));
}

#[test]
fn config_from_parts_ok() {
    let c = ApiConfig::from_parts(
        Some(String::from("a")),
        Some(String::from("b")),
        Some(String::from("c")),
        Some(String::from("d")),
        Some(String::from("e")),
    )
    .unwrap();
    assert_eq!(c.api_url, "a");
    assert_eq!(c.drive_url, "b");
    assert_eq!(c.client_id, "c");
    assert_eq!(c.wp_token, "d");
    assert_eq!(c.drive_token, "e");
}

#[test]
fn config_from_parts_reports_first_missing() {
    let e = ApiConfig::from_parts(None, None, None, None, None).unwrap_err();
    assert_eq!(e, ConfigError::MissingApiUrl);
    assert_eq!(e.message(), "API_URL not found in environment");

    let e = ApiConfig::from_parts(
        Some(String::from("a")),
        None,
        Some(String::from("c")),
        None,
        None,
    )
    .unwrap_err();
    assert_eq!(e, ConfigError::MissingDriveUrl);
    assert_eq!(e.message(), "DRIVE_URL not found in environment");

    let e = ApiConfig::from_parts(
        Some(String::from("a")),
        Some(String::from("b")),
        None,
        None,
        None,
    )
    .unwrap_err();
    assert_eq!(e, ConfigError::MissingClientId);
    assert_eq!(e.message(), "CLIENT_ID not found in environment");

    let e = ApiConfig::from_parts(
        Some(String::from("a")),
        Some(String::from("b")),
        Some(String::from("c")),
        None,
        Some(String::from("e")),
    )
    .unwrap_err();
    assert_eq!(e, ConfigError::MissingWpToken);
    assert_eq!(e.message(), "WP_TOKEN not found in environment");

    let e = ApiConfig::from_parts(
        Some(String::from("a")),
        Some(String::from("b")),
        Some(String::from("c")),
        Some(String::from("d")),
        None,
    )
    .unwrap_err();
    assert_eq!(e, ConfigError::MissingDriveToken);
    assert_eq!(e.message(), "DRIVE_TOKEN not found in environment");
}

#[test]
fn status_range() {
    assert!(!status_is_success(199));
    assert!(status_is_success(200));
    assert!(status_is_success(204));
    assert!(status_is_success(299));
    assert!(!status_is_success(300));
    assert!(!status_is_success(404));
    assert!(!status_is_success(500));
}

#[test]
fn plan_get_resource_fields() {
    let config = test_config();
    let p = plan_get_resource(&config, 2473843);
    assert_eq!(p.method, HttpMethod::Get);
    assert_eq!(p.url, "https://api.example.com/ws/workspaceManagerWs/getResource");
    assert_eq!(p.headers.len(), 2);
    assert_eq!(p.headers[0].0, "Content-Type");
    assert_eq!(p.headers[0].1, "application/json");
    assert_eq!(p.headers[1].0, "Cookie");
    assert_eq!(p.headers[1].1, "WP_token=tok-123");
    assert_eq!(p.query.len(), 2);
    assert_eq!(p.query[0].0, "clientId");
    assert_eq!(p.query[0].1, "client-7");
    assert_eq!(p.query[1].0, "resourceGId");
    assert_eq!(p.query[1].1, "2473843");
    assert!(p.body.is_none());
}

#[test]
fn plan_get_publication_settings_fields() {
    let config = test_config();
    let p = plan_get_publication_settings(&config, -12);
    assert_eq!(p.method, HttpMethod::Get);
    assert_eq!(p.url, "https://api.example.com/ws/generationWs/getPublicationSettings");
    assert_eq!(p.query.len(), 2);
    assert_eq!(p.query[1].0, "publicationGId");
    assert_eq!(p.query[1].1, "-12");
    assert!(p.body.is_none());
}

#[test]
fn plan_get_recent_resources_fields() {
    let config = test_config();
    let p = plan_get_recent_resources(&config);
    assert_eq!(p.method, HttpMethod::Get);
    assert_eq!(p.url, "https://api.example.com/ws/workspaceManagerWs/getRecentResources");
    assert_eq!(p.query.len(), 4);
    assert_eq!(p.query[0].0, "clientId");
    assert_eq!(p.query[0].1, "client-7");
    assert_eq!(p.query[1].0, "include");
    assert_eq!(p.query[1].1, "PUBLICATION");
    assert_eq!(p.query[2].0, "itemsPerPage");
    assert_eq!(p.query[2].1, "20");
    assert_eq!(p.query[3].0, "pageNum");
    assert_eq!(p.query[3].1, "0");
    assert!(p.body.is_none());
}

#[test]
fn plan_toggle_wishlist_fields() {
    let config = test_config();
    let p = plan_toggle_wishlist(&config, 99, true);
    assert_eq!(p.method, HttpMethod::Put);
    assert_eq!(p.url, "https://api.example.com/ws/generationWs/updatePublicationSettings");
    assert_eq!(p.query.len(), 1);
    assert_eq!(p.query[0].0, "clientId");
    assert_eq!(p.query[0].1, "client-7");
    assert_eq!(
        p.body.as_deref(),
        Some("{\"clientId\":\"client-7\",\"globalId\":99,\"wishlistEnabled\":true}")
    );
}

#[test]
fn plan_get_cover_image_fields() {
    let config = test_config();
    let p = plan_get_cover_image(&config, "covers/p1.png");
    assert_eq!(p.method, HttpMethod::Get);
    assert_eq!(p.url, "https://drive.example.com/client-7/covers/p1.png");
    assert!(p.headers.is_empty());
    assert_eq!(p.query.len(), 1);
    assert_eq!(p.query[0].0, "token");
    assert_eq!(p.query[0].1, "drive-tok");
    assert!(p.body.is_none());
}

#[test]
fn finish_json_tool_pretty_prints() {
    let out = finish_json_tool(200, "{\"a\":1,\"b\":[true,null]}").unwrap();
    assert_eq!(out, "{\n  \"a\": 1,\n  \"b\": [\n    true,\n    null\n  ]\n}");
    // The round through serde_json must agree with serde_json itself.
    let v: serde_json::Value = serde_json::from_str("{\"a\":1,\"b\":[true,null]}").unwrap();
    assert_eq!(out, serde_json::to_string_pretty(&v).unwrap());
}

#[test]
fn finish_json_tool_rejects_status() {
    let e = finish_json_tool(404, "{}").unwrap_err();
    assert_eq!(e, ToolError::Status(404));
    assert_eq!(e.message(), "Request failed with status: 404");
}

#[test]
fn finish_json_tool_rejects_bad_json() {
    let e = finish_json_tool(200, "not json").unwrap_err();
    match &e {
        ToolError::Parse(_) => {}
        other => panic!("expected a parse error, got {:?}", other),
    }
    assert!(e.message().starts_with("Failed to parse response: "));
}

#[test]
fn finish_image_tool_encodes() {
    let bytes: Vec<u8> = Vec::from(&b"hello"[..]);
    let img = finish_image_tool(200, &bytes, "covers/p1.png").unwrap();
    assert_eq!(img.data, "aGVsbG8=");
    assert_eq!(img.mime, "image/png");
    // Must agree with the base64 engine itself.
    let expected = base64::Engine::encode(&base64::engine::general_purpose::STANDARD, &bytes);
    assert_eq!(img.data, expected);
}

#[test]
fn finish_image_tool_empty_bytes() {
    let bytes: Vec<u8> = Vec::new();
    let img = finish_image_tool(204, &bytes, "x.gif").unwrap();
    assert_eq!(img.data, "");
    assert_eq!(img.mime, "image/gif");
}

#[test]
fn finish_image_tool_rejects_status() {
    let bytes: Vec<u8> = Vec::from(&b"x"[..]);
    let e = finish_image_tool(500, &bytes, "x.png").unwrap_err();
    assert_eq!(e, ToolError::Status(500));
    assert_eq!(e.message(), "Request failed with status: 500");
}

#[test]
fn mime_types() {
    assert_eq!(mime_type_for("a/b.png"), "image/png");
    assert_eq!(mime_type_for("a/b.jpg"), "image/jpeg");
    assert_eq!(mime_type_for("a/b.jpeg"), "image/jpeg");
    assert_eq!(mime_type_for("a/b.gif"), "image/gif");
    assert_eq!(mime_type_for("a/b.webp"), "image/webp");
    assert_eq!(mime_type_for("a/b.bmp"), "image/jpeg");
    assert_eq!(mime_type_for("a/b.PNG"), "image/jpeg");
    assert_eq!(mime_type_for(""), "image/jpeg");
}

#[test]
fn suffix_checks() {
    assert!(str_ends_with("hello.png", ".png"));
    assert!(!str_ends_with("hello.pngx", ".png"));
    assert!(str_ends_with("", ""));
    assert!(str_ends_with("abc", ""));
    assert!(!str_ends_with("a", "ba"));
    assert!(str_ends_with("héllo.jpég", ".jpég"));
}

#[test]
fn tool_error_messages() {
    assert_eq!(
        ToolError::Status(301).message(),
        "Request failed with status: 301"
    );
    assert_eq!(
        ToolError::Parse(String::from("boom")).message(),
        "Failed to parse response: boom"
    );
    assert_eq!(
        ToolError::Format(String::from("bad")).message(),
        "Failed to format response: bad"
    );
}
