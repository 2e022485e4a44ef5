//! The request and profile shapes that Legado exchanges with this service,
//! and Legado's speech-rate scale.

use vstd::prelude::*;

verus! {

/// The rate that Legado sends for normal speed.
pub const DEFAULT_LEGADO_RATE: i32 = 10;

/// A synthesis request: the text to speak and Legado's speech rate.
#[derive(Debug)]
pub struct TtsRequest {
    pub text: String,
    pub rate: i32,
}

/// The query of a profile request: the token, when one was given.
#[derive(Debug)]
pub struct ConfigQuery {
    pub token: Option<String>,
}

/// A Legado "HTTP TTS" profile.
#[derive(Debug)]
pub struct LegadoConfig {
    pub concurrent_rate: &'static str,
    pub content_type: &'static str,
    pub header: String,
    pub id: u64,
    pub login_check_js: &'static str,
    pub login_ui: &'static str,
    pub login_url: &'static str,
    pub name: &'static str,
    pub url: String,
}

/// The rate a request has when it names none.
pub fn default_legado_rate() -> (rate: i32)
    ensures
        rate == DEFAULT_LEGADO_RATE,
{
    DEFAULT_LEGADO_RATE
}

/// Edge's rate offset, in percent, for a Legado rate: ten points per step
/// away from the normal rate.
pub open spec fn rate_percent(rate: int) -> int {
    (rate - DEFAULT_LEGADO_RATE) * 10
}

/// Whether the percentage for `rate` fits in an `i32`.
pub open spec fn rate_in_range(rate: int) -> bool {
    i32::MIN <= rate_percent(rate) <= i32::MAX
}

/// Maps a Legado rate to Edge's rate offset in percent: `(rate - 10) * 10`.
pub fn legado_rate_to_percent(rate: i32) -> (percent: i32)
    requires
        rate_in_range(rate as int),
    ensures
        percent == rate_percent(rate as int),
{
    (rate - DEFAULT_LEGADO_RATE) * 10
}

/// Distinct Legado rates give distinct Edge rates, and a faster Legado rate
/// gives a faster Edge rate.
pub proof fn rate_percent_strictly_increasing(a: int, b: int)
    requires
        a < b,
    ensures
        rate_percent(a) < rate_percent(b),
{
}

} // verus!
