//! Request headers, held in `axum`'s `HeaderMap`.

use axum::http::{HeaderMap, HeaderValue};
use vstd::prelude::*;

verus! {

#[verifier::external_type_specification]
#[verifier::external_body]
#[verifier::reject_recursive_types(T)]
pub struct ExHeaderMap<T>(HeaderMap<T>);

#[verifier::external_type_specification]
#[verifier::external_body]
pub struct ExHeaderValue(HeaderValue);

/// The fields of a header map: for each header name, in lowercase, the
/// values stored under it in insertion order, each as its bytes.
pub uninterp spec fn header_fields(headers: HeaderMap) -> Map<Seq<char>, Seq<Seq<u8>>>;

/// A byte that `HeaderValue::to_str` accepts: a visible ASCII character or a tab.
pub open spec fn is_visible_ascii(b: u8) -> bool {
    (32 <= b && b < 127) || b == 9
}

/// The characters that ASCII bytes stand for.
pub open spec fn ascii_text(bytes: Seq<u8>) -> Seq<char> {
    bytes.map_values(|b: u8| b as char)
}

/// The text of the first value stored under `name`, when there is one and
/// it is visible ASCII.
pub open spec fn header_text(fields: Map<Seq<char>, Seq<Seq<u8>>>, name: Seq<char>) -> Option<
    Seq<char>,
> {
    if fields.contains_key(name) && fields[name].len() > 0 && (forall|i: int|
        0 <= i < fields[name][0].len() ==> is_visible_ascii(#[trigger] fields[name][0][i])) {
        Some(ascii_text(fields[name][0]))
    } else {
        None
    }
}

/// A header name as the service writes it: lowercase letters and dashes.
pub open spec fn is_lowercase_header_name(name: Seq<char>) -> bool {
    &&& name.len() > 0
    &&& forall|i: int| 0 <= i < name.len() ==> ('a' <= #[trigger] name[i] <= 'z' || name[i] == '-')
}

/// The text view of an optional string.
pub open spec fn opt_text(s: Option<&str>) -> Option<Seq<char>> {
    match s {
        Some(t) => Some(t@),
        None => None,
    }
}

/// `HeaderMap::get` followed by `HeaderValue::to_str`: the first value
/// stored under `name`, as text, when it holds only visible ASCII and tabs;
/// `None` when there is no such header or its value holds other bytes.
#[verifier::external_body]
pub(crate) fn header_value<'a>(headers: &'a HeaderMap, name: &str) -> (value: Option<&'a str>)
    requires
        is_lowercase_header_name(name@),
    ensures
        opt_text(value) == header_text(header_fields(*headers), name@),
{
    match headers.get(name) {
        Some(value) => value.to_str().ok(),
        None => None,
    }
}

} // verus!
