//! The Legado "HTTP TTS" profile that imports this service into Legado.

use axum::http::HeaderMap;
use vstd::prelude::*;

use crate::config::Config;
use crate::http::auth::{bearer_accepts, bearer_header_is_accepted};
use crate::http::headers::header_fields;
use crate::http::origin::{origin_of, request_origin};
use crate::legado::LegadoConfig;

verus! {

/// The profile's fixed id.
pub const LEGADO_CONFIG_ID: u64 = 1735914000000;

/// The profile's name as Legado lists it.
pub const LEGADO_CONFIG_NAME: &'static str = "EdgeTTS for Legado";

/// The request body Legado sends, with its placeholders for the text and the rate.
pub const LEGADO_REQUEST_BODY_TEMPLATE: &'static str =
    "{\\\"text\\\": \\\"{{speakText}}\\\", \\\"rate\\\": {{speakSpeed}}}";

/// The request options of the profile: a POST with the body template.
pub open spec fn request_options_text() -> Seq<char> {
    "{\"method\": \"POST\", \"body\": \""@ + LEGADO_REQUEST_BODY_TEMPLATE@ + "\"}"@
}

/// The value of the `Authorization` header that the profile sends.
pub open spec fn bearer_value(token: Seq<char>) -> Seq<char> {
    "Bearer "@ + token
}

/// The text before the `Authorization` value in the profile's headers.
pub open spec fn headers_prefix() -> Seq<char> {
    "{\n\"Content-Type\": \"application/json\",\n\"Authorization\": \""@
}

/// The text after the `Authorization` value in the profile's headers.
pub open spec fn headers_suffix() -> Seq<char> {
    "\"\n}"@
}

/// The headers of the profile: JSON content and the bearer token.
pub open spec fn request_headers_text(token: Seq<char>) -> Seq<char> {
    headers_prefix() + bearer_value(token) + headers_suffix()
}

/// The profile's URL: the synthesis endpoint under the request's origin,
/// a comma, and the request options.
pub open spec fn profile_url(fields: Map<Seq<char>, Seq<Seq<u8>>>) -> Seq<char> {
    origin_of(fields) + "/tts"@ + ","@ + request_options_text()
}

/// Builds the profile for the origin the client used and the configured token.
pub fn build_legado_config(config: &Config, headers: &HeaderMap) -> (profile: LegadoConfig)
    ensures
        profile.url@ == profile_url(header_fields(*headers)),
        profile.header@ == request_headers_text(config.auth.token@),
        profile.concurrent_rate@ == "1000"@,
        profile.content_type@ == "audio/mpeg"@,
        profile.id == LEGADO_CONFIG_ID,
        profile.login_check_js@ == ""@,
        profile.login_ui@ == ""@,
        profile.login_url@ == ""@,
        profile.name@ == LEGADO_CONFIG_NAME@,
{
    let mut url = request_origin(headers);
    url.append("/tts");
    url.append(",");
    let request_options = build_request_options();
    url.append(request_options.as_str());
    let request_headers = build_request_headers(config.auth.token.as_str());
    LegadoConfig {
        concurrent_rate: "1000",
        content_type: "audio/mpeg",
        header: request_headers,
        id: LEGADO_CONFIG_ID,
        login_check_js: "",
        login_ui: "",
        login_url: "",
        name: LEGADO_CONFIG_NAME,
        url,
    }
}

/// The profile's request options.
pub fn build_request_options() -> (options: String)
    ensures
        options@ == request_options_text(),
{
    let mut options = String::from_str("{\"method\": \"POST\", \"body\": \"");
    options.append(LEGADO_REQUEST_BODY_TEMPLATE);
    options.append("\"}");
    options
}

/// The profile's request headers for `token`.
pub fn build_request_headers(token: &str) -> (headers: String)
    ensures
        headers@ == request_headers_text(token@),
{
    let mut headers = String::from_str("{\n\"Content-Type\": \"application/json\",\n\"Authorization\": \"");
    headers.append("Bearer ");
    headers.append(token);
    headers.append("\"\n}");
    headers
}

/// A profile generated for the configured token authorises the synthesis
/// requests that Legado then sends: the `Authorization` value it carries is
/// accepted for that token.
pub proof fn profile_authorizes_its_requests(token: Seq<char>)
    ensures
        request_headers_text(token) == headers_prefix() + bearer_value(token) + headers_suffix(),
        bearer_accepts(bearer_value(token), token),
{
    bearer_header_is_accepted(token);
}

} // verus!
