use edge_tts_for_legado::config::{
    default_settings, AuthConfig, Config, ConfigError, IpAddress, LogConfig, ServerConfig,
    SettingDefault, TtsConfig, TtsRetryConfig,
};

fn test_config() -> Config {
    Config {
        server: ServerConfig {
            host: IpAddress::V4([127, 0, 0, 1]),
            port: 8000,
        },
        auth: AuthConfig {
            token: "secret".to_owned(),
        },
        log: LogConfig {
            directory: "logs".to_owned(),
            file_name: "app.log".to_owned(),
            max_file_size_mb: 50,
            max_keep_files: 10,
            stdout: true,
        },
        tts: TtsConfig {
            voice: "zh-CN-XiaoxiaoNeural".to_owned(),
            retry: TtsRetryConfig {
                max_attempts: 3,
                initial_backoff_ms: 1000,
            },
            request_timeout_secs: 30,
        },
    }
}

#[test]
fn rejects_zero_retry_attempts() {
    let mut config = test_config();
    config.tts.retry.max_attempts = 0;

    assert!(matches!(
        config.validate(),
        Err(ConfigError::Invalid(message))
        if message == "tts.retry.max_attempts must be greater than 0"
    ));
}

#[test]
fn rejects_zero_request_timeout() {
    let mut config = test_config();
    config.tts.request_timeout_secs = 0;

    assert!(matches!(
        config.validate(),
        Err(ConfigError::Invalid(message))
        if message == "tts.request_timeout_secs must be greater than 0"
    ));
}

#[test]
fn rejects_empty_log_directory() {
    let mut config = test_config();
    config.log.directory = " ".to_owned();

    assert!(matches!(
        config.validate(),
        Err(ConfigError::Invalid(message))
        if message == "log.directory must not be empty"
    ));
}

#[test]
fn rejects_zero_log_file_size() {
    let mut config = test_config();
    config.log.max_file_size_mb = 0;

    assert!(matches!(
        config.validate(),
        Err(ConfigError::Invalid(message))
        if message == "log.max_file_size_mb must be greater than 0"
    ));
}

#[test]
fn rejects_zero_log_keep_files() {
    let mut config = test_config();
    config.log.max_keep_files = 0;

    assert!(matches!(
        config.validate(),
        Err(ConfigError::Invalid(message))
        if message == "log.max_keep_files must be greater than 0"
    ));
}

#[test]
fn rejects_empty_token() {
    let mut config = test_config();
    config.auth.token = " ".to_owned();

    assert!(matches!(
        config.validate(),
        Err(ConfigError::Invalid(message))
        if message == "auth.token must not be empty"
    ));
}

#[test]
fn accepts_complete_config() {
    assert!(test_config().validate().is_ok());
}

#[test]
fn rejects_blank_log_file_name_with_unicode_space() {
    let mut config = test_config();
    config.log.file_name = "\u{3000}\t\u{a0}".to_owned();

    assert!(matches!(
        config.validate(),
        Err(ConfigError::Invalid(message))
        if message == "log.file_name must not be empty"
    ));
}

#[test]
fn reports_first_problem_in_order() {
    let mut config = test_config();
    config.auth.token = String::new();
    config.tts.request_timeout_secs = 0;
    config.log.max_keep_files = 0;

    assert!(matches!(
        config.validate(),
        Err(ConfigError::Invalid(message))
        if message == "auth.token must not be empty"
    ));
}

#[test]
fn accepts_token_with_inner_spaces() {
    let mut config = test_config();
    config.auth.token = " a b ".to_owned();

    assert!(config.validate().is_ok());
}

#[test]
fn lists_setting_defaults_in_order() {
    let defaults = default_settings();
    let keys: Vec<&str> = defaults.iter().map(|(key, _)| *key).collect();
    assert_eq!(
        keys,
        vec![
            "server.host",
            "server.port",
            "log.directory",
            "log.file_name",
            "log.max_file_size_mb",
            "log.max_keep_files",
            "log.stdout",
            "tts.voice",
            "tts.retry.max_attempts",
            "tts.retry.initial_backoff_ms",
            "tts.request_timeout_secs",
        ]
    );
    assert!(matches!(defaults[0].1, SettingDefault::Text("127.0.0.1")));
    assert!(matches!(defaults[1].1, SettingDefault::Integer(8000)));
    assert!(matches!(defaults[6].1, SettingDefault::Flag(true)));
    assert!(matches!(defaults[7].1, SettingDefault::Text("zh-CN-XiaoxiaoNeural")));
    assert!(matches!(defaults[10].1, SettingDefault::Integer(30)));
}

#[test]
fn treats_every_unicode_space_as_blank() {
    for code in 0u32..0x11_0000 {
        if let Some(c) = char::from_u32(code) {
            assert_eq!(
                edge_tts_for_legado::text::char_is_whitespace(c),
                c.is_whitespace(),
                "{code:#x}"
            );
        }
    }
}
