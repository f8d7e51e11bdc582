use static_file_http_server::headers::{
    decimal_string, response_headers, set_cache_control, set_content_type, set_cors_access,
};
use static_file_http_server::response::{into_response, STATUS_INTERNAL_ERROR, STATUS_OK};
use static_file_http_server::headers::SetHeader;

fn pairs(hs: &[SetHeader]) -> Vec<(String, String)> {
    hs.iter().map(|h| (h.name.clone(), h.value.clone())).collect()
}

#[test]
fn decimal_string_renders_digits() {
    assert_eq!(decimal_string(0), "0");
    assert_eq!(decimal_string(7), "7");
    assert_eq!(decimal_string(10), "10");
    assert_eq!(decimal_string(3600), "3600");
    assert_eq!(decimal_string(u64::MAX), "18446744073709551615");
}

#[test]
fn content_type_header() {
    let h = set_content_type("text/css");
    assert_eq!(h.name, "Content-Type");
    assert_eq!(h.value, "text/css");
}

#[test]
fn cors_header_is_verbatim() {
    let h = set_cors_access("https://example.org");
    assert_eq!(h.name, "Access-Control-Allow-Origin");
    assert_eq!(h.value, "https://example.org");
}

#[test]
fn cache_control_for_non_negative_seconds() {
    let h = set_cache_control(&3600).unwrap();
    assert_eq!(h.name, "Cache-Control");
    assert_eq!(h.value, "max-age=3600");
    assert_eq!(set_cache_control(&0).unwrap().value, "max-age=0");
    assert_eq!(
        set_cache_control(&i64::MAX).unwrap().value,
        "max-age=9223372036854775807"
    );
}

#[test]
fn cache_control_absent_for_negative_seconds() {
    assert!(set_cache_control(&-1).is_none());
    assert!(set_cache_control(&i64::MIN).is_none());
}

#[test]
fn headers_in_order_with_cache() {
    let hs = response_headers("text/html", "*", 10);
    assert_eq!(
        pairs(&hs),
        vec![
            ("Content-Type".to_string(), "text/html".to_string()),
            ("Access-Control-Allow-Origin".to_string(), "*".to_string()),
            ("Cache-Control".to_string(), "max-age=10".to_string()),
        ]
    );
}

#[test]
fn headers_without_cache() {
    let hs = response_headers("text/html", "*", -5);
    assert_eq!(
        pairs(&hs),
        vec![
            ("Content-Type".to_string(), "text/html".to_string()),
            ("Access-Control-Allow-Origin".to_string(), "*".to_string()),
        ]
    );
}

#[test]
fn accepted_headers_pass_through() {
    let r = into_response(STATUS_OK, response_headers("text/plain", "*", 1), "hi".to_string());
    assert_eq!(r.status, 200);
    assert_eq!(r.headers.len(), 3);
    assert_eq!(r.body, "hi");
}

#[test]
fn invalid_header_value_is_internal_error() {
    let r = into_response(STATUS_OK, response_headers("text/plain", "a\nb", 1), "hi".to_string());
    assert_eq!(r.status, STATUS_INTERNAL_ERROR);
    assert!(r.headers.is_empty());
    assert_eq!(r.body, "Invalid header value a\nb");
}

#[test]
fn invalid_header_name_is_reported_first() {
    let hs = vec![
        SetHeader { name: "Bad Name".to_string(), value: "x\u{1}".to_string() },
        SetHeader { name: "Good".to_string(), value: "ok".to_string() },
    ];
    let r = into_response(STATUS_OK, hs, String::new());
    assert_eq!(r.status, 500);
    assert_eq!(r.body, "Invalid header name Bad Name");
}

#[test]
fn tab_and_non_ascii_values_are_accepted() {
    let r = into_response(STATUS_OK, response_headers("text/plain", "a\tb é", -1), String::new());
    assert_eq!(r.status, 200);
    assert_eq!(r.headers[1].value, "a\tb é");
}
