use axum::http::{HeaderMap, HeaderValue};
use edge_tts_for_legado::http::origin::{request_host, request_origin, request_scheme};

#[test]
fn prefers_forwarded_proto_for_scheme() {
    let mut headers = HeaderMap::new();
    headers.insert("x-forwarded-proto", HeaderValue::from_static("https"));

    assert_eq!(request_scheme(&headers), "https");
}

#[test]
fn falls_back_to_http_and_localhost() {
    let headers = HeaderMap::new();

    assert_eq!(request_scheme(&headers), "http");
    assert_eq!(request_host(&headers), "localhost:8000");
    assert_eq!(request_origin(&headers), "http://localhost:8000");
}

#[test]
fn reads_host_header() {
    let mut headers = HeaderMap::new();
    headers.insert("host", HeaderValue::from_static("example.com"));

    assert_eq!(request_host(&headers), "example.com");
}

#[test]
fn builds_origin_from_both_headers() {
    let mut headers = HeaderMap::new();
    headers.insert("host", HeaderValue::from_static("tts.example.org:9000"));
    headers.insert("X-Forwarded-Proto", HeaderValue::from_static("https"));

    assert_eq!(request_origin(&headers), "https://tts.example.org:9000");
}

#[test]
fn ignores_host_that_is_not_visible_ascii() {
    let mut headers = HeaderMap::new();
    headers.insert(
        "host",
        HeaderValue::from_bytes(b"ex\xe4mple.com").expect("valid header bytes"),
    );

    assert_eq!(request_host(&headers), "localhost:8000");
}
