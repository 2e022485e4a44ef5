use std::time::{Duration, Instant};

use edge_tts_for_legado::config::{
    AuthConfig, Config, IpAddress, LogConfig, ServerConfig, TtsConfig, TtsRetryConfig,
};
use edge_tts_for_legado::state::AppState;
use edge_tts_for_legado::error::AppError;
use edge_tts_for_legado::legado::{TtsRequest, DEFAULT_LEGADO_RATE};
use edge_tts_for_legado::services::tts::{
    backoff_for_attempt, remaining_attempt_budget, total_future_backoff, upstream_timeout_error,
    RetryAction, RetryEvent, RetryState, SpeechBoundary, TtsService,
};

fn synthesis_config(max_attempts: u32) -> TtsConfig {
    TtsConfig {
        voice: "zh-CN-XiaoxiaoNeural".to_owned(),
        retry: TtsRetryConfig {
            max_attempts,
            initial_backoff_ms: 1000,
        },
        request_timeout_secs: 30,
    }
}

fn secs(n: u64) -> Option<u128> {
    Some(Duration::from_secs(n).as_nanos())
}

#[test]
fn builds_expected_voice_and_rate() {
    let config = TtsConfig {
        voice: "zh-CN-XiaoxiaoNeural".to_owned(),
        retry: TtsRetryConfig {
            max_attempts: 3,
            initial_backoff_ms: 1000,
        },
        request_timeout_secs: 30,
    };
    let options = TtsService::build_speak_options(&config, DEFAULT_LEGADO_RATE + 5);

    assert_eq!(options.voice, "zh-CN-XiaoxiaoNeural");
    assert_eq!(options.rate, "+50%");
}

#[test]
fn builds_neutral_and_slow_speak_options() {
    let config = synthesis_config(3);

    let neutral = TtsService::build_speak_options(&config, DEFAULT_LEGADO_RATE);
    assert_eq!(neutral.rate, "+0%");
    assert_eq!(neutral.volume, "+0%");
    assert_eq!(neutral.pitch, "+0Hz");
    assert_eq!(neutral.boundary, SpeechBoundary::Sentence);

    let slow = TtsService::build_speak_options(&config, 1);
    assert_eq!(slow.rate, "-90%");
    let fast = TtsService::build_speak_options(&config, 123);
    assert_eq!(fast.rate, "+1130%");
}

#[test]
fn rejects_empty_text() {
    let result = TtsService::validate_request(&TtsRequest {
        text: "   ".to_owned(),
        rate: DEFAULT_LEGADO_RATE,
    });

    assert!(matches!(result, Err(AppError::BadRequest("Text is empty"))));
}

#[test]
fn accepts_text_with_content() {
    assert!(TtsService::validate_request(&TtsRequest {
        text: " hello ".to_owned(),
        rate: DEFAULT_LEGADO_RATE,
    })
    .is_ok());
    assert!(matches!(
        TtsService::validate_request(&TtsRequest {
            text: String::new(),
            rate: DEFAULT_LEGADO_RATE,
        }),
        Err(AppError::BadRequest("Text is empty"))
    ));
}

#[test]
fn uses_exponential_backoff() {
    assert_eq!(Duration::from_millis(backoff_for_attempt(1000, 1)), Duration::from_secs(1));
    assert_eq!(Duration::from_millis(backoff_for_attempt(1000, 2)), Duration::from_secs(2));
    assert_eq!(Duration::from_millis(backoff_for_attempt(1000, 3)), Duration::from_secs(4));
}

#[test]
fn saturates_backoff_at_maximum() {
    assert_eq!(backoff_for_attempt(1000, 0), 1000);
    assert_eq!(backoff_for_attempt(u64::MAX, 2), u64::MAX);
    assert_eq!(backoff_for_attempt(3, 64), u64::MAX);
    assert_eq!(backoff_for_attempt(1, 64), 1u64 << 63);
}

#[test]
fn sums_future_backoff() {
    assert_eq!(total_future_backoff(1000, 0), Duration::ZERO.as_millis());
    assert_eq!(total_future_backoff(1000, 1), Duration::from_secs(1).as_millis());
    assert_eq!(total_future_backoff(1000, 2), Duration::from_secs(3).as_millis());
}

#[test]
fn sums_saturated_backoff_without_overflow() {
    assert_eq!(total_future_backoff(u64::MAX, 64), 64 * u64::MAX as u128);
}

#[test]
fn allocates_attempt_budget_without_consuming_retry_backoff() {
    let retry = TtsRetryConfig {
        max_attempts: 3,
        initial_backoff_ms: 1000,
    };
    let deadline = Instant::now() + Duration::from_secs(30);
    let remaining = deadline
        .checked_duration_since(Instant::now())
        .map(|left| left.as_nanos());

    let budget = remaining_attempt_budget(remaining, &retry, 1).expect("missing budget");

    assert!(budget >= Duration::from_secs(8).as_nanos());
    assert!(budget <= Duration::from_secs(9).as_nanos());
}

#[test]
fn gives_no_budget_when_time_is_short_or_gone() {
    let retry = TtsRetryConfig {
        max_attempts: 3,
        initial_backoff_ms: 1000,
    };

    assert_eq!(remaining_attempt_budget(secs(30), &retry, 1), Some(9_000_000_000));
    assert_eq!(remaining_attempt_budget(None, &retry, 1), None);
    assert_eq!(remaining_attempt_budget(secs(3), &retry, 1), None);
    assert_eq!(remaining_attempt_budget(secs(2), &retry, 1), None);
    assert_eq!(remaining_attempt_budget(secs(30), &retry, 4), None);
    assert_eq!(remaining_attempt_budget(Some(3_000_000_002), &retry, 1), Some(0));
}

#[test]
fn formats_timeout_error() {
    assert!(matches!(
        upstream_timeout_error(30),
        AppError::Upstream(message) if message == "TTS upstream timed out after 30 seconds"
    ));
}

#[test]
fn retries_until_the_last_attempt_fails() {
    let config = synthesis_config(3);
    let state = RetryState::new();

    let (state, action) = state.step(&config, RetryEvent::Ready { remaining_ns: secs(30) });
    assert!(matches!(action, RetryAction::Attempt { timeout_ns: 9_000_000_000 }));
    assert_eq!(state.attempt(), 1);

    let (state, action) = state.step(
        &config,
        RetryEvent::UpstreamFailed {
            message: "no audio".to_owned(),
            remaining_ns: secs(20),
        },
    );
    assert!(matches!(action, RetryAction::Wait { backoff_ms: 1000 }));
    assert_eq!(state.attempt(), 2);

    let (state, action) = state.step(&config, RetryEvent::Ready { remaining_ns: secs(19) });
    assert!(matches!(action, RetryAction::Attempt { timeout_ns: 9_000_000_000 }));

    let (state, action) = state.step(&config, RetryEvent::TimedOut { remaining_ns: secs(10) });
    assert!(matches!(action, RetryAction::Wait { backoff_ms: 2000 }));
    assert_eq!(state.attempt(), 3);

    let (state, action) = state.step(&config, RetryEvent::Ready { remaining_ns: secs(8) });
    assert!(matches!(action, RetryAction::Attempt { timeout_ns: 8_000_000_000 }));

    let (_, action) = state.step(&config, RetryEvent::TimedOut { remaining_ns: secs(1) });
    assert!(matches!(
        action,
        RetryAction::Fail(AppError::Upstream(message))
        if message == "TTS upstream error after 3 attempts: attempt 3 timed out after 8s"
    ));
}

#[test]
fn reports_last_upstream_error() {
    let config = synthesis_config(1);
    let (state, _) = RetryState::new().step(&config, RetryEvent::Ready { remaining_ns: secs(30) });
    let (_, action) = state.step(
        &config,
        RetryEvent::UpstreamFailed {
            message: "websocket error: closed".to_owned(),
            remaining_ns: secs(29),
        },
    );

    assert!(matches!(
        action,
        RetryAction::Fail(AppError::Upstream(message))
        if message == "TTS upstream error after 1 attempts: websocket error: closed"
    ));
}

#[test]
fn gives_up_when_pause_would_pass_deadline() {
    let config = synthesis_config(3);
    let (state, _) = RetryState::new().step(&config, RetryEvent::Ready { remaining_ns: secs(30) });
    let (_, action) = state.step(
        &config,
        RetryEvent::UpstreamFailed {
            message: "busy".to_owned(),
            remaining_ns: secs(1),
        },
    );

    assert!(matches!(
        action,
        RetryAction::Fail(AppError::Upstream(message))
        if message == "TTS upstream timed out after 30 seconds"
    ));
}

#[test]
fn gives_up_when_deadline_has_passed() {
    let config = synthesis_config(3);
    let (_, action) = RetryState::new().step(&config, RetryEvent::Ready { remaining_ns: None });

    assert!(matches!(
        action,
        RetryAction::Fail(AppError::Upstream(message))
        if message == "TTS upstream timed out after 30 seconds"
    ));
}

#[test]
fn fails_without_attempts_when_none_allowed() {
    let config = synthesis_config(0);
    let (_, action) = RetryState::new().step(&config, RetryEvent::Ready { remaining_ns: secs(30) });

    assert!(matches!(
        action,
        RetryAction::Fail(AppError::Upstream(message))
        if message == "TTS upstream failed without returning an explicit error"
    ));
}

#[test]
fn answers_errors_with_status_and_detail() {
    let (status, body) = AppError::Unauthorized("Invalid Token").into_response_parts();
    assert_eq!(status, 401);
    assert_eq!(body.detail(), "Invalid Token");

    let (status, body) = AppError::BadRequest("Text is empty").into_response_parts();
    assert_eq!(status, 400);
    assert_eq!(body.detail(), "Text is empty");

    let (status, body) = AppError::Upstream("boom".to_owned()).into_response_parts();
    assert_eq!(status, 502);
    assert_eq!(body.detail(), "boom");
}

#[test]
fn builds_service_from_client_outcome() {
    let failed = TtsService::with_client(Err(edge_tts_rust::Error::NoAudioReceived), synthesis_config(3));
    assert!(matches!(failed, Err(edge_tts_rust::Error::NoAudioReceived)));

    let client = edge_tts_rust::EdgeTtsClient::builder()
        .ws_warmup(false)
        .build()
        .expect("client without warm-up");
    let service = TtsService::with_client(Ok(client), synthesis_config(2)).expect("service");
    assert_eq!(service.config().retry.max_attempts, 2);
    assert_eq!(service.client().resolve_output_format("audio-24khz-48kbitrate-mono-mp3"), "audio-24khz-48kbitrate-mono-mp3");
}

#[test]
fn builds_state_from_client_outcome() {
    let config = Config {
        server: ServerConfig {
            host: IpAddress::V4([127, 0, 0, 1]),
            port: 8000,
        },
        auth: AuthConfig {
            token: "secret".to_owned(),
        },
        log: LogConfig {
            directory: "logs".to_owned(),
            file_name: "app.log".to_owned(),
            max_file_size_mb: 50,
            max_keep_files: 10,
            stdout: true,
        },
        tts: synthesis_config(4),
    };
    let failed = AppState::with_client(config.clone(), Err(edge_tts_rust::Error::MissingHeaders));
    assert!(matches!(failed, Err(edge_tts_rust::Error::MissingHeaders)));

    let client = edge_tts_rust::EdgeTtsClient::builder()
        .ws_warmup(false)
        .build()
        .expect("client without warm-up");
    let state = AppState::with_client(config, Ok(client)).expect("state");
    assert_eq!(state.config.auth.token, "secret");
    assert_eq!(state.tts_service.config().retry.max_attempts, 4);
    let shared = state.clone();
    assert_eq!(shared.tts_service.config().voice, "zh-CN-XiaoxiaoNeural");
}

#[test]
fn delivers_audio_of_successful_attempt() {
    let config = synthesis_config(3);
    let (state, _) = RetryState::new().step(&config, RetryEvent::Ready { remaining_ns: secs(30) });
    let (state, _) = state.step(
        &config,
        RetryEvent::UpstreamFailed {
            message: "busy".to_owned(),
            remaining_ns: secs(25),
        },
    );
    let (state, _) = state.step(&config, RetryEvent::Ready { remaining_ns: secs(24) });
    let (state, action) = state.step(
        &config,
        RetryEvent::Succeeded {
            audio: vec![0x1a, 0x45, 0xdf, 0xa3],
        },
    );

    assert_eq!(state.attempt(), 2);
    assert!(matches!(action, RetryAction::Deliver { audio } if audio == vec![0x1a, 0x45, 0xdf, 0xa3]));
}
