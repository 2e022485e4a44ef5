//! The origin (scheme and host) under which a client reached the service.

use axum::http::HeaderMap;
use vstd::prelude::*;

use crate::http::headers::{header_fields, header_text, header_value};

verus! {

/// The request's scheme: the `x-forwarded-proto` header, else `http`.
pub open spec fn scheme_of(fields: Map<Seq<char>, Seq<Seq<u8>>>) -> Seq<char> {
    match header_text(fields, "x-forwarded-proto"@) {
        Some(proto) => proto,
        None => "http"@,
    }
}

/// The request's host: the `host` header, else `localhost:8000`.
pub open spec fn host_of(fields: Map<Seq<char>, Seq<Seq<u8>>>) -> Seq<char> {
    match header_text(fields, "host"@) {
        Some(host) => host,
        None => "localhost:8000"@,
    }
}

/// The request's origin: scheme, `://`, host.
pub open spec fn origin_of(fields: Map<Seq<char>, Seq<Seq<u8>>>) -> Seq<char> {
    scheme_of(fields) + "://"@ + host_of(fields)
}

/// The scheme the client used, as a reverse proxy reports it in
/// `x-forwarded-proto`; `http` when there is no such header.
pub fn request_scheme(headers: &HeaderMap) -> (scheme: &str)
    ensures
        scheme@ == scheme_of(header_fields(*headers)),
{
    proof {
        reveal_strlit("x-forwarded-proto");
    }
    match header_value(headers, "x-forwarded-proto") {
        Some(proto) => proto,
        None => "http",
    }
}

/// The host the client asked for in the `host` header; `localhost:8000`
/// when there is none.
pub fn request_host(headers: &HeaderMap) -> (host: &str)
    ensures
        host@ == host_of(header_fields(*headers)),
{
    proof {
        reveal_strlit("host");
    }
    match header_value(headers, "host") {
        Some(host) => host,
        None => "localhost:8000",
    }
}

/// `scheme://host` for the request.
pub fn request_origin(headers: &HeaderMap) -> (origin: String)
    ensures
        origin@ == origin_of(header_fields(*headers)),
{
    let mut origin = String::from_str(request_scheme(headers));
    origin.append("://");
    origin.append(request_host(headers));
    origin
}

} // verus!
