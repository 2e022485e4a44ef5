//! Speech synthesis: request checks, Edge speak options, and the retry and
//! time-budget decisions around the upstream call.

use vstd::arithmetic::power2::pow2;
use vstd::prelude::*;

use edge_tts_rust::EdgeTtsClient;

use crate::config::{TtsConfig, TtsRetryConfig};
use crate::error::{AppError, AppErrorView};
use crate::legado::{legado_rate_to_percent, rate_in_range, rate_percent, TtsRequest};
use crate::text::{
    decimal, decimal_is_digits, decimal_string, is_blank, is_blank_str, is_digit, signed_decimal,
    signed_decimal_string,
};

verus! {

#[verifier::external_type_specification]
#[verifier::external_body]
pub struct ExEdgeTtsClient(EdgeTtsClient);

#[verifier::external_type_specification]
#[verifier::external_body]
pub struct ExEdgeTtsError(edge_tts_rust::Error);

/// `<EdgeTtsClient as Clone>::clone`: a client that shares the original's
/// HTTP connection settings and websocket pool. Nothing is stated of it.
pub assume_specification[ <EdgeTtsClient as Clone>::clone ](client: &EdgeTtsClient) -> EdgeTtsClient;

/// Speech synthesis with the configured voice and limits.
#[derive(Debug, Clone)]
pub struct TtsService {
    client: EdgeTtsClient,
    config: TtsConfig,
}

impl TtsService {
    /// The settings the service synthesizes with.
    pub closed spec fn tts_config(&self) -> TtsConfig {
        self.config
    }

    /// The upstream client the service calls.
    pub closed spec fn edge_client(&self) -> EdgeTtsClient {
        self.client
    }

    /// The service for `config` from the outcome of building an upstream
    /// client: with that client when it was built, else the same error.
    pub fn with_client(
        client: Result<EdgeTtsClient, edge_tts_rust::Error>,
        config: TtsConfig,
    ) -> (res: Result<Self, edge_tts_rust::Error>)
        ensures
            match client {
                Ok(c) => res matches Ok(service) && service.edge_client() == c
                    && service.tts_config() == config,
                Err(e) => res matches Err(e2) && e2 == e,
            },
    {
        match client {
            Ok(client) => Ok(TtsService { client, config }),
            Err(error) => Err(error),
        }
    }

    /// The upstream client.
    pub fn client(&self) -> (client: &EdgeTtsClient)
        ensures
            *client == self.edge_client(),
    {
        &self.client
    }

    /// The settings the service synthesizes with.
    pub fn config(&self) -> (config: &TtsConfig)
        ensures
            *config == self.tts_config(),
    {
        &self.config
    }

    /// Rejects a request whose text is empty or holds nothing but white space.
    pub fn validate_request(payload: &TtsRequest) -> (res: Result<(), AppError>)
        ensures
            res is Ok <==> !is_blank(payload.text@),
            res matches Err(e) ==> e@ == AppErrorView::BadRequest("Text is empty"@),
    {
        if is_blank_str(payload.text.as_str()) {
            Err(AppError::BadRequest("Text is empty"))
        } else {
            Ok(())
        }
    }

    /// The speak options for a request: the configured voice, the request's
    /// rate as Edge's signed percentage, unchanged volume (`+0%`) and pitch
    /// (`+0Hz`), sentence boundaries.
    pub fn build_speak_options(config: &TtsConfig, rate: i32) -> (options: SpeakOptions)
        requires
            rate_in_range(rate as int),
        ensures
            options.voice@ == config.voice@,
            options.rate@ == rate_text(rate as int),
            options.volume@ == "+0%"@,
            options.pitch@ == "+0Hz"@,
            options.boundary == SpeechBoundary::Sentence,
    {
        proof {
            reveal_strlit("%");
        }
        let mut rate_str = signed_decimal_string(legado_rate_to_percent(rate));
        rate_str.append("%");
        SpeakOptions {
            voice: config.voice.clone(),
            rate: rate_str,
            volume: String::from_str("+0%"),
            pitch: String::from_str("+0Hz"),
            boundary: SpeechBoundary::Sentence,
        }
    }
}

/// Where Edge reports boundaries while it speaks.
#[derive(Debug, Clone, Copy, PartialEq, Eq, Structural)]
pub enum SpeechBoundary {
    Word,
    Sentence,
}

/// What Edge is asked to speak with: voice, rate, volume, pitch and boundary kind.
#[derive(Debug)]
pub struct SpeakOptions {
    pub voice: String,
    pub rate: String,
    pub volume: String,
    pub pitch: String,
    pub boundary: SpeechBoundary,
}

/// Edge's rate text for a Legado rate: the signed percentage and `%`.
pub open spec fn rate_text(rate: int) -> Seq<char> {
    signed_decimal(rate_percent(rate)) + seq!['%']
}

/// The rate text of every request is a rate that Edge accepts: a sign,
/// one or more ASCII digits, and `%`.
pub proof fn rate_text_is_edge_rate(rate: int)
    ensures
        rate_text(rate).len() >= 3,
        rate_text(rate)[0] == '+' || rate_text(rate)[0] == '-',
        rate_text(rate).last() == '%',
        forall|i: int| 1 <= i < rate_text(rate).len() - 1 ==> is_digit(#[trigger] rate_text(rate)[i]),
{
    let p = rate_percent(rate);
    let digits = if p >= 0 { decimal(p as nat) } else { decimal((-p) as nat) };
    if p >= 0 {
        decimal_is_digits(p as nat);
    } else {
        decimal_is_digits((-p) as nat);
    }
    let sign = if p >= 0 { '+' } else { '-' };
    assert(rate_text(rate) =~= seq![sign] + digits + seq!['%']);
    assert forall|i: int| 1 <= i < rate_text(rate).len() - 1 implies is_digit(#[trigger] rate_text(rate)[i]) by {
        assert(rate_text(rate)[i] == digits[i - 1]);
    }
}

/// The power of two that scales the pause after attempt `attempt`.
pub open spec fn backoff_exponent(attempt: u32) -> nat {
    if attempt == 0 {
        0
    } else {
        (attempt - 1) as nat
    }
}

/// The pause, in milliseconds, after failed attempt `attempt`: the initial
/// pause doubled for each earlier attempt, capped at `u64::MAX`.
pub open spec fn backoff_ms(initial_backoff_ms: u64, attempt: u32) -> int {
    let product = initial_backoff_ms * pow2(backoff_exponent(attempt));
    if product > u64::MAX {
        u64::MAX as int
    } else {
        product
    }
}

/// The pause, in milliseconds, after failed attempt `attempt` (counted from 1).
pub fn backoff_for_attempt(initial_backoff_ms: u64, attempt: u32) -> (ms: u64)
    requires
        attempt <= 64,
    ensures
        ms == backoff_ms(initial_backoff_ms, attempt),
{
    let shift: u64 = attempt.saturating_sub(1) as u64;
    proof {
        vstd::bits::lemma_u64_pow2_no_overflow(shift as nat);
        vstd::bits::lemma_u64_shl_is_mul(1, shift);
    }
    let multiplier: u64 = 1u64 << shift;
    match initial_backoff_ms.checked_mul(multiplier) {
        Some(product) => product,
        None => u64::MAX,
    }
}

/// The pauses, in milliseconds, after attempts `1..=retries`, added up.
pub open spec fn total_backoff_ms(initial_backoff_ms: u64, retries: nat) -> int
    decreases retries,
{
    if retries == 0 {
        0
    } else {
        total_backoff_ms(initial_backoff_ms, (retries - 1) as nat) + backoff_ms(
            initial_backoff_ms,
            retries as u32,
        )
    }
}

/// The time, in milliseconds, that the pauses of the remaining retries
/// will take: the sum of the pauses after attempts `1..=retries_left_after_attempt`.
pub fn total_future_backoff(initial_backoff_ms: u64, retries_left_after_attempt: u32) -> (ms: u128)
    requires
        retries_left_after_attempt <= 64,
    ensures
        ms == total_backoff_ms(initial_backoff_ms, retries_left_after_attempt as nat),
        ms <= retries_left_after_attempt * 0xffff_ffff_ffff_ffff,
{
    let mut total: u128 = 0;
    let mut offset: u32 = 0;
    while offset < retries_left_after_attempt
        invariant
            offset <= retries_left_after_attempt <= 64,
            total == total_backoff_ms(initial_backoff_ms, offset as nat),
            total <= offset * 0xffff_ffff_ffff_ffff,
        decreases retries_left_after_attempt - offset,
    {
        offset = offset + 1;
        let pause = backoff_for_attempt(initial_backoff_ms, offset);
        total = total + pause as u128;
    }
    total
}

/// How many attempts are left, counting attempt `attempt` itself (for
/// `attempt <= max_attempts`), capped at `u32::MAX`.
pub open spec fn attempts_left(max_attempts: u32, attempt: u32) -> int {
    let left = max_attempts - attempt + 1;
    if left > u32::MAX {
        u32::MAX as int
    } else {
        left
    }
}

/// The time, in nanoseconds, kept back for the pauses after attempt `attempt`.
pub open spec fn reserved_ns(retry: TtsRetryConfig, attempt: u32) -> int {
    total_backoff_ms(
        retry.initial_backoff_ms,
        (attempts_left(retry.max_attempts, attempt) - 1) as nat,
    ) * 1_000_000
}

/// The time budget, in nanoseconds, of attempt `attempt` when `remaining`
/// nanoseconds are left before the deadline (`None`: the deadline has
/// passed): what is left once the pauses still due are set aside, shared
/// evenly by the attempts still due and rounded down to the nanosecond;
/// none when nothing is left for them.
pub open spec fn attempt_budget(remaining: Option<u128>, retry: TtsRetryConfig, attempt: u32) -> Option<int> {
    match remaining {
        None => None,
        Some(rem) => {
            if attempt > retry.max_attempts {
                None
            } else {
                let available = rem - reserved_ns(retry, attempt);
                if available <= 0 {
                    None
                } else {
                    Some(available / attempts_left(retry.max_attempts, attempt))
                }
            }
        },
    }
}

/// Whether the budget can be worked out without overflowing a shift: the
/// pauses set aside must be those after at most 64 attempts.
pub open spec fn budget_defined(remaining: Option<u128>, retry: TtsRetryConfig, attempt: u32) -> bool {
    remaining is None || attempt > retry.max_attempts || retry.max_attempts - attempt <= 64
}

/// The time budget of attempt `attempt`, from the nanoseconds left before
/// the deadline. A budget never eats into the pauses still due: the
/// budgets of all remaining attempts and those pauses together fit in the
/// time that is left.
pub fn remaining_attempt_budget(remaining_ns: Option<u128>, retry: &TtsRetryConfig, attempt: u32) -> (budget: Option<u128>)
    requires
        budget_defined(remaining_ns, *retry, attempt),
    ensures
        match budget {
            Some(b) => attempt_budget(remaining_ns, *retry, attempt) == Some(b as int),
            None => attempt_budget(remaining_ns, *retry, attempt) is None,
        },
        budget matches Some(b) ==> b * attempts_left(retry.max_attempts, attempt) + reserved_ns(*retry, attempt)
            <= remaining_ns->0,
{
    let remaining = match remaining_ns {
        Some(rem) => rem,
        None => {
            return None;
        },
    };
    if attempt > retry.max_attempts {
        return None;
    }
    let left: u32 = (retry.max_attempts - attempt).saturating_add(1);
    let reserved_ms = total_future_backoff(retry.initial_backoff_ms, left - 1);
    let reserved: u128 = reserved_ms * 1_000_000;
    if remaining <= reserved {
        return None;
    }
    let available = remaining - reserved;
    let share = available / (left as u128);
    proof {
        let l = left as int;
        let a = available as int;
        assert(share * l <= a) by (nonlinear_arith)
            requires
                l > 0,
                share == a / l,
        ;
    }
    Some(share)
}

/// The error for a request that ran out of its time budget.
pub open spec fn timeout_error(request_timeout_secs: u64) -> AppErrorView {
    AppErrorView::Upstream(
        "TTS upstream timed out after "@ + decimal(request_timeout_secs as nat) + " seconds"@,
    )
}

/// The error for a request that ran out of time.
pub fn upstream_timeout_error(request_timeout_secs: u64) -> (e: AppError)
    ensures
        e@ == timeout_error(request_timeout_secs),
{
    let mut message = String::from_str("TTS upstream timed out after ");
    message.append(decimal_string(request_timeout_secs).as_str());
    message.append(" seconds");
    AppError::Upstream(message)
}

/// How `Debug` renders a duration of `secs` seconds and `nanos` nanoseconds
/// (such as `9s`, `8.5s` or `120ms`).
pub uninterp spec fn duration_debug_text(secs: u64, nanos: u32) -> Seq<char>;

/// `<Duration as Debug>::fmt`, for the duration of `secs` seconds and
/// `nanos` nanoseconds: its text is named `duration_debug_text`.
#[verifier::external_body]
fn format_duration(secs: u64, nanos: u32) -> (text: String)
    requires
        nanos < 1_000_000_000,
    ensures
        text@ == duration_debug_text(secs, nanos),
{
    format!("{:?}", std::time::Duration::new(secs, nanos))
}

/// Whether a span of `ns` nanoseconds is one that `Duration` can hold.
pub open spec fn fits_duration(ns: u128) -> bool {
    ns / 1_000_000_000 <= u64::MAX
}

/// The text of a duration of `ns` nanoseconds.
pub open spec fn duration_text(ns: u128) -> Seq<char> {
    duration_debug_text((ns / 1_000_000_000) as u64, (ns % 1_000_000_000) as u32)
}

/// The state of a synthesis between attempts.
#[derive(Debug)]
pub struct RetryState {
    attempt: u32,
    last_error: Option<String>,
    attempt_timeout_ns: u128,
}

/// A `RetryState` with its error text as characters.
pub struct RetryStateView {
    /// The attempt under way or next, counted from 1.
    pub attempt: u32,
    /// Why the latest attempt failed, if one has.
    pub last_error: Option<Seq<char>>,
    /// The time budget, in nanoseconds, of the attempt under way.
    pub attempt_timeout_ns: u128,
}

impl View for RetryState {
    type V = RetryStateView;

    closed spec fn view(&self) -> RetryStateView {
        RetryStateView {
            attempt: self.attempt,
            last_error: match self.last_error {
                Some(e) => Some(e@),
                None => None,
            },
            attempt_timeout_ns: self.attempt_timeout_ns,
        }
    }
}

/// What happened since the last step. Each event but `Succeeded` carries
/// the time left before the deadline when it happened, in nanoseconds
/// (`None`: the deadline has passed).
#[derive(Debug)]
pub enum RetryEvent {
    /// The synthesis is about to start, or a pause has ended.
    Ready { remaining_ns: Option<u128> },
    /// The attempt under way failed upstream; `message` says why.
    UpstreamFailed { message: String, remaining_ns: Option<u128> },
    /// The attempt under way ran out of its time budget.
    TimedOut { remaining_ns: Option<u128> },
    /// The attempt under way brought back this audio.
    Succeeded { audio: Vec<u8> },
}

/// A `RetryEvent` with its text as characters.
pub enum RetryEventView {
    Ready(Option<u128>),
    UpstreamFailed(Seq<char>, Option<u128>),
    TimedOut(Option<u128>),
    Succeeded(Seq<u8>),
}

impl View for RetryEvent {
    type V = RetryEventView;

    open spec fn view(&self) -> RetryEventView {
        match self {
            RetryEvent::Ready { remaining_ns } => RetryEventView::Ready(*remaining_ns),
            RetryEvent::UpstreamFailed { message, remaining_ns } => RetryEventView::UpstreamFailed(
                message@,
                *remaining_ns,
            ),
            RetryEvent::TimedOut { remaining_ns } => RetryEventView::TimedOut(*remaining_ns),
            RetryEvent::Succeeded { audio } => RetryEventView::Succeeded(audio@),
        }
    }
}

/// What to do next.
#[derive(Debug)]
pub enum RetryAction {
    /// Call the upstream service, giving up on this attempt after `timeout_ns` nanoseconds.
    Attempt { timeout_ns: u128 },
    /// Pause for `backoff_ms` milliseconds, then report `Ready`.
    Wait { backoff_ms: u64 },
    /// Stop: the request fails with this error.
    Fail(AppError),
    /// Stop: the request succeeds with this audio.
    Deliver { audio: Vec<u8> },
}

/// A `RetryAction` with its error as a view.
pub enum RetryActionView {
    Attempt(u128),
    Wait(u64),
    Fail(AppErrorView),
    Deliver(Seq<u8>),
}

impl View for RetryAction {
    type V = RetryActionView;

    open spec fn view(&self) -> RetryActionView {
        match self {
            RetryAction::Attempt { timeout_ns } => RetryActionView::Attempt(*timeout_ns),
            RetryAction::Wait { backoff_ms } => RetryActionView::Wait(*backoff_ms),
            RetryAction::Fail(e) => RetryActionView::Fail(e@),
            RetryAction::Deliver { audio } => RetryActionView::Deliver(audio@),
        }
    }
}

/// The error once no attempt is left: the last upstream error, or a note
/// that there was none.
pub open spec fn final_error(last_error: Option<Seq<char>>, max_attempts: u32) -> AppErrorView {
    match last_error {
        Some(e) => AppErrorView::Upstream(
            "TTS upstream error after "@ + decimal(max_attempts as nat) + " attempts: "@ + e,
        ),
        None => AppErrorView::Upstream("TTS upstream failed without returning an explicit error"@),
    }
}

/// Why an attempt that ran out of its budget failed.
pub open spec fn timeout_message(attempt: u32, budget_ns: u128) -> Seq<char> {
    "attempt "@ + decimal(attempt as nat) + " timed out after "@ + duration_text(budget_ns)
}

/// The step after a failed attempt, once its error is recorded in `s`:
/// pause before the next attempt if one is left and the pause ends before
/// the deadline; else fail, with the time-out error when the deadline is
/// in the way and with the last upstream error when no attempt is left.
pub open spec fn after_failure(s: RetryStateView, config: TtsConfig, remaining: Option<u128>) -> (
    RetryStateView,
    RetryActionView,
) {
    if s.attempt < config.retry.max_attempts {
        let pause = backoff_ms(config.retry.initial_backoff_ms, s.attempt);
        match remaining {
            None => (s, RetryActionView::Fail(timeout_error(config.request_timeout_secs))),
            Some(rem) => {
                if pause * 1_000_000 >= rem {
                    (s, RetryActionView::Fail(timeout_error(config.request_timeout_secs)))
                } else {
                    (
                        RetryStateView { attempt: (s.attempt + 1) as u32, ..s },
                        RetryActionView::Wait(pause as u64),
                    )
                }
            },
        }
    } else {
        (s, RetryActionView::Fail(final_error(s.last_error, config.retry.max_attempts)))
    }
}

/// The next state and action after `event`. On `Ready`, the attempt under
/// way starts with its time budget, or the request fails with the time-out
/// error when there is no budget (or, with no attempt allowed at all, with
/// the final error). A failure records its reason and goes on as
/// `after_failure` says. A success ends the synthesis with its audio.
pub open spec fn retry_step(s: RetryStateView, config: TtsConfig, event: RetryEventView) -> (
    RetryStateView,
    RetryActionView,
) {
    match event {
        RetryEventView::Ready(remaining) => {
            if s.attempt > config.retry.max_attempts {
                (s, RetryActionView::Fail(final_error(s.last_error, config.retry.max_attempts)))
            } else {
                match attempt_budget(remaining, config.retry, s.attempt) {
                    None => (s, RetryActionView::Fail(timeout_error(config.request_timeout_secs))),
                    Some(b) => (
                        RetryStateView { attempt_timeout_ns: b as u128, ..s },
                        RetryActionView::Attempt(b as u128),
                    ),
                }
            }
        },
        RetryEventView::UpstreamFailed(message, remaining) => after_failure(
            RetryStateView { last_error: Some(message), ..s },
            config,
            remaining,
        ),
        RetryEventView::TimedOut(remaining) => after_failure(
            RetryStateView {
                last_error: Some(timeout_message(s.attempt, s.attempt_timeout_ns)),
                ..s
            },
            config,
            remaining,
        ),
        RetryEventView::Succeeded(audio) => (s, RetryActionView::Deliver(audio)),
    }
}

/// Whether `retry_step` can be taken without overflowing a shift or a
/// duration: the budget must be defined on `Ready`, a pause is only
/// computed after attempt 64 or earlier, and a timed-out budget fits a `Duration`.
pub open spec fn step_defined(s: RetryStateView, config: TtsConfig, event: RetryEventView) -> bool {
    match event {
        RetryEventView::Ready(remaining) => s.attempt > config.retry.max_attempts || budget_defined(
            remaining,
            config.retry,
            s.attempt,
        ),
        RetryEventView::UpstreamFailed(_, _) => s.attempt < config.retry.max_attempts ==> s.attempt
            <= 64,
        RetryEventView::TimedOut(_) => {
            &&& s.attempt < config.retry.max_attempts ==> s.attempt <= 64
            &&& fits_duration(s.attempt_timeout_ns)
        },
        RetryEventView::Succeeded(_) => true,
    }
}

impl RetryState {
    /// The state before the first attempt.
    pub fn new() -> (s: RetryState)
        ensures
            s@ == (RetryStateView { attempt: 1, last_error: None, attempt_timeout_ns: 0 }),
    {
        RetryState { attempt: 1, last_error: None, attempt_timeout_ns: 0 }
    }

    /// The attempt under way or next, counted from 1.
    pub fn attempt(&self) -> (attempt: u32)
        ensures
            attempt == self@.attempt,
    {
        self.attempt
    }

    fn final_error(&self, max_attempts: u32) -> (e: AppError)
        ensures
            e@ == final_error(self@.last_error, max_attempts),
    {
        match &self.last_error {
            Some(last) => {
                let mut message = String::from_str("TTS upstream error after ");
                message.append(decimal_string(max_attempts as u64).as_str());
                message.append(" attempts: ");
                message.append(last.as_str());
                AppError::Upstream(message)
            },
            None => AppError::Upstream(
                String::from_str("TTS upstream failed without returning an explicit error"),
            ),
        }
    }

    fn after_failure(self, config: &TtsConfig, remaining_ns: Option<u128>) -> (next: (
        RetryState,
        RetryAction,
    ))
        requires
            self@.attempt < config.retry.max_attempts ==> self@.attempt <= 64,
        ensures
            (next.0@, next.1@) == after_failure(self@, *config, remaining_ns),
    {
        if self.attempt < config.retry.max_attempts {
            let pause = backoff_for_attempt(config.retry.initial_backoff_ms, self.attempt);
            let expired = match remaining_ns {
                None => true,
                Some(rem) => (pause as u128) * 1_000_000 >= rem,
            };
            if expired {
                let e = upstream_timeout_error(config.request_timeout_secs);
                (self, RetryAction::Fail(e))
            } else {
                let next = RetryState { attempt: self.attempt + 1, ..self };
                (next, RetryAction::Wait { backoff_ms: pause })
            }
        } else {
            let e = self.final_error(config.retry.max_attempts);
            (self, RetryAction::Fail(e))
        }
    }

    /// Takes one step of a synthesis: from the state and what happened, the
    /// next state and what to do, as `retry_step` says.
    pub fn step(self, config: &TtsConfig, event: RetryEvent) -> (next: (RetryState, RetryAction))
        requires
            step_defined(self@, *config, event@),
        ensures
            (next.0@, next.1@) == retry_step(self@, *config, event@),
    {
        match event {
            RetryEvent::Ready { remaining_ns } => {
                if self.attempt > config.retry.max_attempts {
                    let e = self.final_error(config.retry.max_attempts);
                    return (self, RetryAction::Fail(e));
                }
                match remaining_attempt_budget(remaining_ns, &config.retry, self.attempt) {
                    None => {
                        let e = upstream_timeout_error(config.request_timeout_secs);
                        (self, RetryAction::Fail(e))
                    },
                    Some(budget) => {
                        let next = RetryState { attempt_timeout_ns: budget, ..self };
                        (next, RetryAction::Attempt { timeout_ns: budget })
                    },
                }
            },
            RetryEvent::UpstreamFailed { message, remaining_ns } => {
                let failed = RetryState { last_error: Some(message), ..self };
                failed.after_failure(config, remaining_ns)
            },
            RetryEvent::TimedOut { remaining_ns } => {
                let budget = self.attempt_timeout_ns;
                let mut message = String::from_str("attempt ");
                message.append(decimal_string(self.attempt as u64).as_str());
                message.append(" timed out after ");
                let secs = (budget / 1_000_000_000) as u64;
                let nanos = (budget % 1_000_000_000) as u32;
                message.append(format_duration(secs, nanos).as_str());
                let failed = RetryState { last_error: Some(message), ..self };
                failed.after_failure(config, remaining_ns)
            },
            RetryEvent::Succeeded { audio } => (self, RetryAction::Deliver { audio }),
        }
    }
}

/// The first pause is the configured initial pause, and each later pause
/// doubles the one before it, up to `u64::MAX` milliseconds.
pub proof fn backoff_doubles(initial_backoff_ms: u64, attempt: u32)
    requires
        1 <= attempt < 64,
    ensures
        backoff_ms(initial_backoff_ms, 1) == initial_backoff_ms,
        backoff_ms(initial_backoff_ms, (attempt + 1) as u32) == if 2 * backoff_ms(
            initial_backoff_ms,
            attempt,
        ) > u64::MAX {
            u64::MAX as int
        } else {
            2 * backoff_ms(initial_backoff_ms, attempt)
        },
{
    vstd::arithmetic::power2::lemma_pow2_unfold(attempt as nat);
    assert(pow2(0) == 1) by {
        vstd::arithmetic::power2::lemma2_to64();
    }
    let p = pow2((attempt - 1) as nat) as int;
    let i = initial_backoff_ms as int;
    assert(backoff_exponent(1) == 0);
    assert(i * pow2(0) == i);
    assert(i * (2 * p) == 2 * (i * p)) by (nonlinear_arith);
    assert(i * p >= 0) by (nonlinear_arith)
        requires
            i >= 0,
            p >= 0,
    ;
}

/// The states a synthesis passes through: attempts are counted from 1 and
/// never pass the limit (the first one aside, when no attempt is allowed
/// at all), and the budget of the attempt under way fits a `Duration`.
pub open spec fn retry_inv(s: RetryStateView, config: TtsConfig) -> bool {
    &&& 1 <= s.attempt
    &&& (s.attempt <= config.retry.max_attempts || s.attempt == 1)
    &&& fits_duration(s.attempt_timeout_ns)
}

/// Whether the time an event reports fits a `Duration`, as a clock reading does.
pub open spec fn event_fits(event: RetryEventView) -> bool {
    let remaining = match event {
        RetryEventView::Ready(r) => r,
        RetryEventView::UpstreamFailed(_, r) => r,
        RetryEventView::TimedOut(r) => r,
        RetryEventView::Succeeded(_) => None,
    };
    remaining matches Some(r) ==> fits_duration(r)
}

/// A synthesis starts in a state of the invariant.
pub proof fn retry_starts_in_invariant(config: TtsConfig)
    ensures
        retry_inv(RetryStateView { attempt: 1, last_error: None, attempt_timeout_ns: 0 }, config),
{
}

/// With at most 65 attempts allowed, every step from a state of the
/// invariant can be taken and leads to a state of the invariant; an attempt
/// starts only within the limit, and the attempt count grows only on a
/// pause, and then by one. (`run_makes_at_most_max_attempts` bounds the
/// upstream calls of a whole synthesis.)
pub proof fn retry_step_keeps_invariant(s: RetryStateView, config: TtsConfig, event: RetryEventView)
    requires
        retry_inv(s, config),
        config.retry.max_attempts <= 65,
        event_fits(event),
    ensures
        step_defined(s, config, event),
        retry_inv(retry_step(s, config, event).0, config),
        retry_step(s, config, event).1 is Attempt ==> {
            &&& retry_step(s, config, event).0.attempt == s.attempt
            &&& s.attempt <= config.retry.max_attempts
        },
        retry_step(s, config, event).1 is Wait ==> retry_step(s, config, event).0.attempt
            == s.attempt + 1,
        retry_step(s, config, event).1 is Fail ==> retry_step(s, config, event).0.attempt
            == s.attempt,
        retry_step(s, config, event).1 is Deliver ==> retry_step(s, config, event).0.attempt
            == s.attempt,
{
    if let RetryEventView::Ready(Some(rem)) = event {
        if s.attempt <= config.retry.max_attempts {
            if let Some(b) = attempt_budget(Some(rem), config.retry, s.attempt) {
                let l = attempts_left(config.retry.max_attempts, s.attempt);
                let a = rem - reserved_ns(config.retry, s.attempt);
                assert(reserved_ns(config.retry, s.attempt) >= 0) by {
                    lemma_total_backoff_nonnegative(
                        config.retry.initial_backoff_ms,
                        (l - 1) as nat,
                    );
                }
                assert(b <= a) by (nonlinear_arith)
                    requires
                        l >= 1,
                        a > 0,
                        b == a / l,
                ;
            }
        }
    }
}

proof fn lemma_total_backoff_nonnegative(initial_backoff_ms: u64, retries: nat)
    ensures
        total_backoff_ms(initial_backoff_ms, retries) >= 0,
    decreases retries,
{
    if retries > 0 {
        lemma_total_backoff_nonnegative(initial_backoff_ms, (retries - 1) as nat);
        let p = pow2(backoff_exponent(retries as u32)) as int;
        let i = initial_backoff_ms as int;
        assert(i * p >= 0) by (nonlinear_arith)
            requires
                i >= 0,
                p >= 0,
        ;
    }
}

/// A synthesis never pauses past its deadline: a pause is only ordered
/// when it ends before the time that is left runs out.
pub proof fn pauses_end_before_deadline(s: RetryStateView, config: TtsConfig, event: RetryEventView)
    ensures
        retry_step(s, config, event).1 matches RetryActionView::Wait(pause) ==> match event {
            RetryEventView::Ready(_) => false,
            RetryEventView::UpstreamFailed(_, remaining) => remaining matches Some(rem) && pause
                * 1_000_000 < rem,
            RetryEventView::TimedOut(remaining) => remaining matches Some(rem) && pause * 1_000_000
                < rem,
            RetryEventView::Succeeded(_) => false,
        },
{
}

/// Whether `events` is a sequence that the caller of `step` may send from
/// state `s`: `Ready` exactly at the start (`expect_ready`) and after each
/// `Wait`, the outcome of the call (`UpstreamFailed`, `TimedOut` or
/// `Succeeded`) after each `Attempt`, and nothing after `Fail` or `Deliver`.
pub open spec fn follows_protocol(
    s: RetryStateView,
    config: TtsConfig,
    events: Seq<RetryEventView>,
    expect_ready: bool,
) -> bool
    decreases events.len(),
{
    if events.len() == 0 {
        true
    } else {
        let (next, action) = retry_step(s, config, events[0]);
        &&& (events[0] is Ready <==> expect_ready)
        &&& match action {
            RetryActionView::Attempt(_) => follows_protocol(next, config, events.drop_first(), false),
            RetryActionView::Wait(_) => follows_protocol(next, config, events.drop_first(), true),
            RetryActionView::Fail(_) => events.len() == 1,
            RetryActionView::Deliver(_) => events.len() == 1,
        }
    }
}

/// The number of `Attempt` actions, that is of upstream calls, that the
/// steps on `events` from state `s` order.
pub open spec fn attempts_ordered(s: RetryStateView, config: TtsConfig, events: Seq<RetryEventView>) -> nat
    decreases events.len(),
{
    if events.len() == 0 {
        0
    } else {
        let (next, action) = retry_step(s, config, events[0]);
        (if action is Attempt { 1nat } else { 0nat }) + attempts_ordered(
            next,
            config,
            events.drop_first(),
        )
    }
}

proof fn lemma_attempts_bounded(
    s: RetryStateView,
    config: TtsConfig,
    events: Seq<RetryEventView>,
    expect_ready: bool,
)
    requires
        follows_protocol(s, config, events, expect_ready),
        1 <= s.attempt,
        expect_ready ==> s.attempt <= config.retry.max_attempts + 1,
        !expect_ready ==> s.attempt <= config.retry.max_attempts,
    ensures
        expect_ready ==> attempts_ordered(s, config, events) <= config.retry.max_attempts + 1
            - s.attempt,
        !expect_ready ==> attempts_ordered(s, config, events) <= config.retry.max_attempts
            - s.attempt,
    decreases events.len(),
{
    if events.len() > 0 {
        let step = retry_step(s, config, events[0]);
        let rest = events.drop_first();
        assert(attempts_ordered(s, config, events) == (if step.1 is Attempt { 1nat } else { 0nat })
            + attempts_ordered(step.0, config, rest));
        if step.1 is Attempt {
            assert(events[0] is Ready);
            assert(step.0.attempt == s.attempt && s.attempt <= config.retry.max_attempts);
            lemma_attempts_bounded(step.0, config, rest, false);
        } else if step.1 is Wait {
            assert(!(events[0] is Ready));
            assert(step.0.attempt == s.attempt + 1 && s.attempt < config.retry.max_attempts);
            lemma_attempts_bounded(step.0, config, rest, true);
        } else {
            assert(rest.len() == 0);
        }
    }
}

/// A whole synthesis makes at most `max_attempts` upstream calls: from the
/// state before the first attempt, every sequence of events sent by the
/// protocol leads to at most that many `Attempt` actions.
pub proof fn run_makes_at_most_max_attempts(config: TtsConfig, events: Seq<RetryEventView>)
    requires
        follows_protocol(
            RetryStateView { attempt: 1, last_error: None, attempt_timeout_ns: 0 },
            config,
            events,
            true,
        ),
    ensures
        attempts_ordered(
            RetryStateView { attempt: 1, last_error: None, attempt_timeout_ns: 0 },
            config,
            events,
        ) <= config.retry.max_attempts,
{
    lemma_attempts_bounded(
        RetryStateView { attempt: 1, last_error: None, attempt_timeout_ns: 0 },
        config,
        events,
        true,
    );
}

/// A success delivers exactly the audio the upstream call returned, all of
/// it and nothing else, whatever its length, and leaves the state as it was.
pub proof fn success_delivers_all_audio(s: RetryStateView, config: TtsConfig, audio: Seq<u8>)
    ensures
        retry_step(s, config, RetryEventView::Succeeded(audio)).1 == RetryActionView::Deliver(audio),
        retry_step(s, config, RetryEventView::Succeeded(audio)).0 == s,
{
}

/// The pause after a failed attempt `k` (counted from 1) is the configured
/// initial pause times `2^(k-1)`, capped at `u64::MAX` milliseconds; and
/// such a pause is ordered whenever another attempt is allowed and the
/// pause ends before the deadline.
pub proof fn pause_after_failure(
    s: RetryStateView,
    config: TtsConfig,
    event: RetryEventView,
)
    requires
        1 <= s.attempt,
        event is UpstreamFailed || event is TimedOut,
    ensures
        retry_step(s, config, event).1 matches RetryActionView::Wait(pause) ==> pause as int == if config.retry.initial_backoff_ms
            * pow2((s.attempt - 1) as nat) > u64::MAX {
            u64::MAX as int
        } else {
            config.retry.initial_backoff_ms * pow2((s.attempt - 1) as nat)
        },
        retry_step(s, config, event).1 matches RetryActionView::Wait(pause) ==> s.attempt == 1
            ==> pause == config.retry.initial_backoff_ms,
        ({
            let remaining = match event {
                RetryEventView::UpstreamFailed(_, r) => r,
                RetryEventView::TimedOut(r) => r,
                _ => None,
            };
            let pause = if config.retry.initial_backoff_ms * pow2((s.attempt - 1) as nat) > u64::MAX {
                u64::MAX as int
            } else {
                config.retry.initial_backoff_ms * pow2((s.attempt - 1) as nat)
            };
            (s.attempt < config.retry.max_attempts && (remaining matches Some(rem) && pause * 1_000_000
                < rem)) ==> retry_step(s, config, event).1 == RetryActionView::Wait(pause as u64)
        }),
{
    assert(pow2(0) == 1) by {
        vstd::arithmetic::power2::lemma2_to64();
    }
    let i = config.retry.initial_backoff_ms as int;
    assert(i * pow2(0) == i);
}

} // verus!
