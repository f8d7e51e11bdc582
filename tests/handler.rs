use static_file_http_server::config::{probe_url, ServerConfig};
use static_file_http_server::handler::{handler, respond};
use static_file_http_server::resolve::ResolvedTarget;
use static_file_http_server::response::HttpResponse;

fn config(cors: &str, cache: i64) -> ServerConfig {
    ServerConfig::new(
        "site".to_string(),
        "127.0.0.1:8080".to_string(),
        cors.to_string(),
        cache,
        false,
    )
}

fn header<'a>(r: &'a HttpResponse, name: &str) -> Option<&'a str> {
    r.headers.iter().find(|h| h.name == name).map(|h| h.value.as_str())
}

#[test]
fn missing_file_without_custom_page() {
    let r = respond("site/missing-file", None, None, &config("*", 3600));
    assert_eq!(r.status, 404);
    assert_eq!(r.body, "File not found!");
    assert_eq!(header(&r, "Content-Type"), Some("text/html"));
    assert_eq!(header(&r, "Access-Control-Allow-Origin"), Some("*"));
    assert_eq!(header(&r, "Cache-Control"), Some("max-age=3600"));
}

#[test]
fn missing_file_with_custom_page() {
    let page = b"<h1>Nothing here</h1>".to_vec();
    let r = respond("site/missing-file", None, Some(page), &config("*", 3600));
    assert_eq!(r.status, 404);
    assert_eq!(r.body, "<h1>Nothing here</h1>");
    assert_eq!(header(&r, "Content-Type"), Some("text/html"));
}

#[test]
fn present_css_file() {
    let css = b"body { color: red; }\n".to_vec();
    let r = respond("site/present-file.css", Some(css.clone()), None, &config("*", 3600));
    assert_eq!(r.status, 200);
    assert_eq!(header(&r, "Content-Type"), Some("text/css"));
    assert_eq!(r.body.as_bytes(), css.as_slice());
}

#[test]
fn present_file_ignores_custom_page() {
    let r = respond("site/a.txt", Some(b"abc".to_vec()), Some(b"nope".to_vec()), &config("*", 1));
    assert_eq!(r.status, 200);
    assert_eq!(r.body, "abc");
}

#[test]
fn binary_file_served_with_empty_body() {
    let r = respond("site/logo.png", Some(vec![0x89, 0x50, 0xff, 0x00]), None, &config("*", 1));
    assert_eq!(r.status, 200);
    assert_eq!(header(&r, "Content-Type"), Some("image/png"));
    assert_eq!(r.body, "");
}

#[test]
fn negative_cache_omits_cache_control() {
    let r = respond("site/a.css", Some(b"x".to_vec()), None, &config("*", -1));
    assert_eq!(r.status, 200);
    assert_eq!(header(&r, "Cache-Control"), None);
    assert_eq!(r.headers.len(), 2);
}

#[test]
fn zero_cache_is_max_age_zero() {
    let r = respond("site/missing", None, None, &config("*", 0));
    assert_eq!(header(&r, "Cache-Control"), Some("max-age=0"));
}

#[test]
fn configured_cors_origin_is_sent() {
    let r = handler(
        ResolvedTarget::NotFound { body: "x".to_string() },
        &config("https://example.org", 60),
    );
    assert_eq!(header(&r, "Access-Control-Allow-Origin"), Some("https://example.org"));
}

#[test]
fn unencodable_cors_origin_is_internal_error() {
    let r = respond("site/a.css", Some(b"x".to_vec()), None, &config("bad\r\nvalue", 60));
    assert_eq!(r.status, 500);
    assert_eq!(r.body, "Invalid header value bad\r\nvalue");
}

#[test]
fn probe_url_uses_bind_address() {
    assert_eq!(probe_url(&config("*", 1)), "http://127.0.0.1:8080");
}
