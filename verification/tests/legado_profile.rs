use axum::http::{HeaderMap, HeaderValue};
use edge_tts_for_legado::config::{
    AuthConfig, Config, IpAddress, LogConfig, ServerConfig, TtsConfig, TtsRetryConfig,
};
use edge_tts_for_legado::legado::{default_legado_rate, legado_rate_to_percent, DEFAULT_LEGADO_RATE};
use edge_tts_for_legado::services::legado::{
    build_legado_config, build_request_headers, build_request_options, LEGADO_CONFIG_ID,
};

fn profile_test_config() -> Config {
    Config {
        server: ServerConfig {
            host: IpAddress::V4([127, 0, 0, 1]),
            port: 8000,
        },
        auth: AuthConfig {
            token: "secret".to_owned(),
        },
        log: LogConfig {
            directory: "logs".to_owned(),
            file_name: "app.log".to_owned(),
            max_file_size_mb: 50,
            max_keep_files: 10,
            stdout: true,
        },
        tts: TtsConfig {
            voice: "zh-CN-XiaoxiaoNeural".to_owned(),
            retry: TtsRetryConfig {
                max_attempts: 3,
                initial_backoff_ms: 1000,
            },
            request_timeout_secs: 30,
        },
    }
}

#[test]
fn converts_legado_rate_to_edge_percent() {
    assert_eq!(legado_rate_to_percent(10), 0);
    assert_eq!(legado_rate_to_percent(5), -50);
    assert_eq!(legado_rate_to_percent(15), 50);
}

#[test]
fn default_rate_is_legado_baseline() {
    assert_eq!(default_legado_rate(), DEFAULT_LEGADO_RATE);
    assert_eq!(default_legado_rate(), 10);
    assert_eq!(legado_rate_to_percent(default_legado_rate()), 0);
}

#[test]
fn converts_extreme_legado_rates() {
    assert_eq!(legado_rate_to_percent(0), -100);
    assert_eq!(legado_rate_to_percent(-214748354), -2147483640);
    assert_eq!(legado_rate_to_percent(214748374), 2147483640);
}

#[test]
fn builds_legado_config_with_current_origin() {
    let mut headers = HeaderMap::new();
    headers.insert("host", HeaderValue::from_static("example.com"));
    headers.insert("x-forwarded-proto", HeaderValue::from_static("https"));

    let config = build_legado_config(&profile_test_config(), &headers);

    assert_eq!(config.content_type, "audio/mpeg");
    assert!(config.url.starts_with("https://example.com/tts,"));
    assert!(config.header.contains("Bearer secret"));
    assert!(config.url.contains("\"method\": \"POST\""));
    assert_eq!(
        config.url,
        "https://example.com/tts,{\"method\": \"POST\", \"body\": \"{\\\"text\\\": \\\"{{speakText}}\\\", \\\"rate\\\": {{speakSpeed}}}\"}"
    );
    assert_eq!(
        config.header,
        "{\n\"Content-Type\": \"application/json\",\n\"Authorization\": \"Bearer secret\"\n}"
    );
}

#[test]
fn fills_fixed_profile_fields() {
    let config = build_legado_config(&profile_test_config(), &HeaderMap::new());

    assert_eq!(config.concurrent_rate, "1000");
    assert_eq!(config.id, LEGADO_CONFIG_ID);
    assert_eq!(config.id, 1735914000000);
    assert_eq!(config.name, "EdgeTTS for Legado");
    assert_eq!(config.login_check_js, "");
    assert_eq!(config.login_ui, "");
    assert_eq!(config.login_url, "");
    assert!(config.url.starts_with("http://localhost:8000/tts,"));
}

#[test]
fn builds_request_options_and_headers() {
    assert_eq!(
        build_request_options(),
        "{\"method\": \"POST\", \"body\": \"{\\\"text\\\": \\\"{{speakText}}\\\", \\\"rate\\\": {{speakSpeed}}}\"}"
    );
    assert_eq!(
        build_request_headers("t0k"),
        "{\n\"Content-Type\": \"application/json\",\n\"Authorization\": \"Bearer t0k\"\n}"
    );
}
