//! The service's settings and the checks they must pass before it starts.

use vstd::prelude::*;

use crate::text::{is_blank, is_blank_str};

verus! {

/// All settings of the service.
#[derive(Debug, Clone)]
pub struct Config {
    pub server: ServerConfig,
    pub auth: AuthConfig,
    pub log: LogConfig,
    pub tts: TtsConfig,
}

/// An IP address: four octets, or eight 16-bit groups.
#[derive(Debug, Clone, Copy)]
pub enum IpAddress {
    V4([u8; 4]),
    V6([u16; 8]),
}

/// Where the service listens.
#[derive(Debug, Clone)]
pub struct ServerConfig {
    pub host: IpAddress,
    pub port: u16,
}

/// The shared token that both endpoints require.
#[derive(Debug, Clone)]
pub struct AuthConfig {
    pub token: String,
}

/// Where and how the service writes its log files.
#[derive(Debug, Clone)]
pub struct LogConfig {
    pub directory: String,
    pub file_name: String,
    pub max_file_size_mb: u64,
    pub max_keep_files: u64,
    pub stdout: bool,
}

/// The voice and the time limits of speech synthesis.
#[derive(Debug)]
pub struct TtsConfig {
    pub voice: String,
    pub retry: TtsRetryConfig,
    pub request_timeout_secs: u64,
}

/// How often, and after how long a pause, a failed synthesis is tried again.
#[derive(Debug, Clone, Copy)]
pub struct TtsRetryConfig {
    pub max_attempts: u32,
    pub initial_backoff_ms: u64,
}

/// Why the settings could not be used.
#[derive(Debug)]
pub enum ConfigError {
    /// The settings could not be read or did not have the expected shape;
    /// the text says why.
    Build(String),
    /// A setting has a value that the service does not accept.
    Invalid(String),
}

impl Clone for TtsConfig {
    fn clone(&self) -> (copy: Self)
        ensures
            copy == *self,
    {
        TtsConfig {
            voice: self.voice.clone(),
            retry: self.retry,
            request_timeout_secs: self.request_timeout_secs,
        }
    }
}

/// The value a setting has when neither `config.toml` nor the environment
/// gives one.
#[derive(Debug, Clone, Copy)]
pub enum SettingDefault {
    Text(&'static str),
    Integer(i64),
    Flag(bool),
}

/// A `SettingDefault` with its text as characters.
pub enum SettingDefaultView {
    Text(Seq<char>),
    Integer(i64),
    Flag(bool),
}

impl View for SettingDefault {
    type V = SettingDefaultView;

    open spec fn view(&self) -> SettingDefaultView {
        match self {
            SettingDefault::Text(t) => SettingDefaultView::Text(t@),
            SettingDefault::Integer(n) => SettingDefaultView::Integer(*n),
            SettingDefault::Flag(b) => SettingDefaultView::Flag(*b),
        }
    }
}

/// The defaults of the settings, by key: listen on 127.0.0.1:8000; log to
/// `logs/app.log`, files of at most 50 MB, 10 kept, also to stdout; speak
/// with `zh-CN-XiaoxiaoNeural`; try 3 times, pausing 1000 ms at first;
/// give a request 30 seconds in all. The token has no default.
pub open spec fn settings_defaults() -> Seq<(Seq<char>, SettingDefaultView)> {
    seq![
        ("server.host"@, SettingDefaultView::Text("127.0.0.1"@)),
        ("server.port"@, SettingDefaultView::Integer(8000)),
        ("log.directory"@, SettingDefaultView::Text("logs"@)),
        ("log.file_name"@, SettingDefaultView::Text("app.log"@)),
        ("log.max_file_size_mb"@, SettingDefaultView::Integer(50)),
        ("log.max_keep_files"@, SettingDefaultView::Integer(10)),
        ("log.stdout"@, SettingDefaultView::Flag(true)),
        ("tts.voice"@, SettingDefaultView::Text("zh-CN-XiaoxiaoNeural"@)),
        ("tts.retry.max_attempts"@, SettingDefaultView::Integer(3)),
        ("tts.retry.initial_backoff_ms"@, SettingDefaultView::Integer(1000)),
        ("tts.request_timeout_secs"@, SettingDefaultView::Integer(30)),
    ]
}

/// The defaults of the settings, by key, that the lowest layer of the
/// settings holds: `config.toml` overrides them and the environment
/// overrides both.
pub fn default_settings() -> (defaults: Vec<(&'static str, SettingDefault)>)
    ensures
        defaults@.len() == settings_defaults().len(),
        forall|i: int|
            0 <= i < defaults@.len() ==> (#[trigger] defaults@[i].0@, defaults@[i].1@)
                == settings_defaults()[i],
{
    let mut defaults: Vec<(&'static str, SettingDefault)> = Vec::new();
    defaults.push(("server.host", SettingDefault::Text("127.0.0.1")));
    defaults.push(("server.port", SettingDefault::Integer(8000)));
    defaults.push(("log.directory", SettingDefault::Text("logs")));
    defaults.push(("log.file_name", SettingDefault::Text("app.log")));
    defaults.push(("log.max_file_size_mb", SettingDefault::Integer(50)));
    defaults.push(("log.max_keep_files", SettingDefault::Integer(10)));
    defaults.push(("log.stdout", SettingDefault::Flag(true)));
    defaults.push(("tts.voice", SettingDefault::Text("zh-CN-XiaoxiaoNeural")));
    defaults.push(("tts.retry.max_attempts", SettingDefault::Integer(3)));
    defaults.push(("tts.retry.initial_backoff_ms", SettingDefault::Integer(1000)));
    defaults.push(("tts.request_timeout_secs", SettingDefault::Integer(30)));
    defaults
}

/// The defaults are those of the README's settings table: host
/// `127.0.0.1`, port 8000, log directory `logs`, log file `app.log`, 50 MB
/// per log file, 10 log files kept, logging to stdout, voice
/// `zh-CN-XiaoxiaoNeural`, 3 attempts, a first pause of 1000 ms, and 30
/// seconds per request; each setting has one default.
pub proof fn documented_defaults()
    ensures
        settings_defaults().len() == 11,
        settings_defaults()[0] == ("server.host"@, SettingDefaultView::Text("127.0.0.1"@)),
        settings_defaults()[1] == ("server.port"@, SettingDefaultView::Integer(8000)),
        settings_defaults()[2] == ("log.directory"@, SettingDefaultView::Text("logs"@)),
        settings_defaults()[3] == ("log.file_name"@, SettingDefaultView::Text("app.log"@)),
        settings_defaults()[4] == ("log.max_file_size_mb"@, SettingDefaultView::Integer(50)),
        settings_defaults()[5] == ("log.max_keep_files"@, SettingDefaultView::Integer(10)),
        settings_defaults()[6] == ("log.stdout"@, SettingDefaultView::Flag(true)),
        settings_defaults()[7] == ("tts.voice"@, SettingDefaultView::Text("zh-CN-XiaoxiaoNeural"@)),
        settings_defaults()[8] == ("tts.retry.max_attempts"@, SettingDefaultView::Integer(3)),
        settings_defaults()[9] == ("tts.retry.initial_backoff_ms"@, SettingDefaultView::Integer(1000)),
        settings_defaults()[10] == ("tts.request_timeout_secs"@, SettingDefaultView::Integer(30)),
        forall|i: int, j: int|
            0 <= i < j < 11 ==> #[trigger] settings_defaults()[i].0 != #[trigger] settings_defaults()[j].0,
{
    reveal_strlit("server.host");
    reveal_strlit("server.port");
    reveal_strlit("log.directory");
    reveal_strlit("log.file_name");
    reveal_strlit("log.max_file_size_mb");
    reveal_strlit("log.max_keep_files");
    reveal_strlit("log.stdout");
    reveal_strlit("tts.voice");
    reveal_strlit("tts.retry.max_attempts");
    reveal_strlit("tts.retry.initial_backoff_ms");
    reveal_strlit("tts.request_timeout_secs");
    let d = settings_defaults();
    assert forall|i: int, j: int| 0 <= i < j < 11 implies #[trigger] d[i].0 != #[trigger] d[j].0 by {
        assert(d[i].0.len() != d[j].0.len() || d[i].0[4] != d[j].0[4] || d[i].0[7] != d[j].0[7]);
    }
}

/// The message for a setting that is blank.
pub open spec fn must_not_be_empty(name: Seq<char>) -> Seq<char> {
    name + " must not be empty"@
}

/// The message for a count or a limit that is zero.
pub open spec fn must_be_positive(name: Seq<char>) -> Seq<char> {
    name + " must be greater than 0"@
}

/// The first rule that `c` breaks, as its message, in the order: token, log
/// directory, log file name, log file size, kept log files, synthesis
/// attempts, request timeout; `None` when `c` breaks none.
pub open spec fn config_problem(c: Config) -> Option<Seq<char>> {
    if is_blank(c.auth.token@) {
        Some(must_not_be_empty("auth.token"@))
    } else if is_blank(c.log.directory@) {
        Some(must_not_be_empty("log.directory"@))
    } else if is_blank(c.log.file_name@) {
        Some(must_not_be_empty("log.file_name"@))
    } else if c.log.max_file_size_mb == 0 {
        Some(must_be_positive("log.max_file_size_mb"@))
    } else if c.log.max_keep_files == 0 {
        Some(must_be_positive("log.max_keep_files"@))
    } else if c.tts.retry.max_attempts == 0 {
        Some(must_be_positive("tts.retry.max_attempts"@))
    } else if c.tts.request_timeout_secs == 0 {
        Some(must_be_positive("tts.request_timeout_secs"@))
    } else {
        None
    }
}

/// Whether `res` is the outcome that a check with the first problem
/// `problem` must give.
pub open spec fn check_outcome(res: Result<(), ConfigError>, problem: Option<Seq<char>>) -> bool {
    match problem {
        None => res is Ok,
        Some(message) => res matches Err(ConfigError::Invalid(m)) && m@ == message,
    }
}

impl Config {
    /// Checks the settings: the token, the log directory and the log file
    /// name must not be blank, and the log size and count, the attempt count
    /// and the request timeout must be greater than zero. The error names the
    /// first setting, in that order, that breaks its rule.
    pub fn validate(&self) -> (res: Result<(), ConfigError>)
        ensures
            check_outcome(res, config_problem(*self)),
    {
        validate_not_blank("auth.token", self.auth.token.as_str())?;
        validate_not_blank("log.directory", self.log.directory.as_str())?;
        validate_not_blank("log.file_name", self.log.file_name.as_str())?;
        validate_positive("log.max_file_size_mb", self.log.max_file_size_mb)?;
        validate_positive("log.max_keep_files", self.log.max_keep_files)?;
        validate_positive("tts.retry.max_attempts", self.tts.retry.max_attempts as u64)?;
        validate_positive("tts.request_timeout_secs", self.tts.request_timeout_secs)
    }
}

/// Rejects a setting that holds nothing but white space.
pub fn validate_not_blank(name: &str, value: &str) -> (res: Result<(), ConfigError>)
    ensures
        check_outcome(res, if is_blank(value@) { Some(must_not_be_empty(name@)) } else { None }),
{
    if is_blank_str(value) {
        let mut message = String::from_str(name);
        message.append(" must not be empty");
        Err(ConfigError::Invalid(message))
    } else {
        Ok(())
    }
}

/// Rejects a count or a limit of zero.
pub fn validate_positive(name: &str, value: u64) -> (res: Result<(), ConfigError>)
    ensures
        check_outcome(res, if value == 0 { Some(must_be_positive(name@)) } else { None }),
{
    if value == 0 {
        let mut message = String::from_str(name);
        message.append(" must be greater than 0");
        Err(ConfigError::Invalid(message))
    } else {
        Ok(())
    }
}

} // verus!
