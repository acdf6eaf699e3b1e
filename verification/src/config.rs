//! The settings that the service runs with, and the rules they must meet.

use vstd::prelude::*;
use vstd::string::StringExecFns;
use crate::number::{parse_number, parsed_number};
use crate::text::{lowercase_text, lowercased, split_and_trim, text_equal, trimmed_pieces};

verus! {

/// Where the service listens.
#[derive(Debug, Clone)]
pub struct ServerConfig {
    pub host: String,
    pub port: u16,
}

/// How the store is reached.
#[derive(Debug, Clone)]
pub struct DatabaseConfig {
    pub url: String,
    pub max_connections: u32,
    pub connect_timeout: u64,
}

/// Which origins may call the service from a browser.
#[derive(Debug, Clone)]
pub struct CorsConfig {
    pub allowed_origins: Vec<String>,
}

/// Limits and switches of the API.
#[derive(Debug, Clone)]
pub struct ApiConfig {
    pub max_request_size: usize,
    pub enable_swagger: bool,
}

/// The environment and the version of the running program.
#[derive(Debug, Clone)]
pub struct AppConfig {
    pub env: Environment,
    pub version: String,
}

/// The environment that the service runs in.
#[derive(Debug, Clone, Copy, PartialEq, Eq, Structural)]
pub enum Environment {
    Development,
    Staging,
    Production,
}

/// What is logged, and in which form.
#[derive(Debug, Clone)]
pub struct LoggingConfig {
    pub level: String,
    pub format: LogFormat,
}

/// The form of a log line.
#[derive(Debug, Clone, Copy, PartialEq, Eq, Structural)]
pub enum LogFormat {
    Pretty,
    Json,
    Compact,
}

/// All settings.
#[derive(Debug, Clone)]
pub struct Settings {
    pub server: ServerConfig,
    pub database: DatabaseConfig,
    pub cors: CorsConfig,
    pub api: ApiConfig,
    pub app: AppConfig,
    pub logging: LoggingConfig,
}

/// The text of each setting as it was found where the program runs, `None`
/// for one that is not set, and the program's version.
#[derive(Debug)]
pub struct RawSettings {
    pub server_host: Option<String>,
    pub server_port: Option<String>,
    pub database_url: Option<String>,
    pub database_max_connections: Option<String>,
    pub database_connect_timeout: Option<String>,
    pub cors_allowed_origins: Option<String>,
    pub max_request_size: Option<String>,
    pub enable_swagger: Option<String>,
    pub app_env: Option<String>,
    pub rust_log: Option<String>,
    pub log_format: Option<String>,
    pub version: String,
}

/// Why settings cannot be used.
#[derive(Debug, Clone, Copy, PartialEq, Eq, Structural)]
pub enum ConfigError {
    /// Every origin is allowed, in production.
    WildcardOriginInProduction,
    /// The port is 0.
    ZeroPort,
    /// The pool may hold no connection.
    ZeroMaxConnections,
    /// The port is not a number up to 65535.
    InvalidPort,
    /// The address of the store is not set.
    MissingDatabaseUrl,
    /// The size of the pool is not a number that fits 32 bits.
    InvalidMaxConnections,
    /// The connection timeout is not a number that fits 64 bits.
    InvalidConnectTimeout,
    /// The largest request size is not a number that fits the machine's word.
    InvalidMaxRequestSize,
}

/// The port used where none is set.
pub const DEFAULT_PORT: u16 = 3737;

/// The size of the pool used where none is set.
pub const DEFAULT_MAX_CONNECTIONS: u32 = 10;

/// The connection timeout, in seconds, used where none is set.
pub const DEFAULT_CONNECT_TIMEOUT: u64 = 30;

/// The largest request size, in bytes, used where none is set.
pub const DEFAULT_MAX_REQUEST_SIZE: usize = 262144;

/// The setting's text, or the default where it is not set.
pub open spec fn text_or(value: Option<String>, default: Seq<char>) -> Seq<char> {
    match value {
        Some(text) => text@,
        None => default,
    }
}

/// The number that a setting means: the default where it is not set, else
/// what its text writes, if that is a number up to `max`.
pub open spec fn number_or(value: Option<String>, default: u64, max: u64) -> Option<u64> {
    match value {
        Some(text) => parsed_number(text@, max),
        None => Some(default),
    }
}

/// The environment that a name in lower case stands for: `production`,
/// `staging`, and development for anything else.
pub open spec fn environment_of(lower: Seq<char>) -> Environment {
    if lower == "production"@ {
        Environment::Production
    } else if lower == "staging"@ {
        Environment::Staging
    } else {
        Environment::Development
    }
}

/// The log format that a name in lower case stands for: `json`, `compact`,
/// and pretty for anything else.
pub open spec fn log_format_of(lower: Seq<char>) -> LogFormat {
    if lower == "json"@ {
        LogFormat::Json
    } else if lower == "compact"@ {
        LogFormat::Compact
    } else {
        LogFormat::Pretty
    }
}

/// The first reason why the raw settings cannot be read, if any, looking at
/// the port, the address of the store, the size of the pool, the connection
/// timeout and the largest request size in this order.
pub open spec fn first_load_error(raw: RawSettings) -> Option<ConfigError> {
    if number_or(raw.server_port, DEFAULT_PORT as u64, u16::MAX as u64) is None {
        Some(ConfigError::InvalidPort)
    } else if raw.database_url is None {
        Some(ConfigError::MissingDatabaseUrl)
    } else if number_or(raw.database_max_connections, DEFAULT_MAX_CONNECTIONS as u64, u32::MAX as u64) is None {
        Some(ConfigError::InvalidMaxConnections)
    } else if number_or(raw.database_connect_timeout, DEFAULT_CONNECT_TIMEOUT, u64::MAX) is None {
        Some(ConfigError::InvalidConnectTimeout)
    } else if number_or(raw.max_request_size, DEFAULT_MAX_REQUEST_SIZE as u64, usize::MAX as u64) is None {
        Some(ConfigError::InvalidMaxRequestSize)
    } else {
        None
    }
}

/// `settings` is what the raw settings mean, each with its default where it
/// is not set: the host `127.0.0.1`; the allowed origins the pieces between
/// the commas of the setting, which is `*` by default; the interface
/// description on unless the setting is `false`; the environment and the
/// log format read without regard to case; the log level `info`.
pub open spec fn reads_as(raw: RawSettings, settings: Settings) -> bool {
    &&& settings.server.host@ == text_or(raw.server_host, "127.0.0.1"@)
    &&& Some(settings.server.port as u64) == number_or(raw.server_port, DEFAULT_PORT as u64, u16::MAX as u64)
    &&& raw.database_url is Some
    &&& settings.database.url@ == raw.database_url->0@
    &&& Some(settings.database.max_connections as u64) == number_or(
        raw.database_max_connections,
        DEFAULT_MAX_CONNECTIONS as u64,
        u32::MAX as u64,
    )
    &&& Some(settings.database.connect_timeout) == number_or(
        raw.database_connect_timeout,
        DEFAULT_CONNECT_TIMEOUT,
        u64::MAX,
    )
    &&& settings.cors.allowed_origins.deep_view() == trimmed_pieces(
        text_or(raw.cors_allowed_origins, "*"@),
        ',',
    )
    &&& Some(settings.api.max_request_size as u64) == number_or(
        raw.max_request_size,
        DEFAULT_MAX_REQUEST_SIZE as u64,
        usize::MAX as u64,
    )
    &&& settings.api.enable_swagger == (text_or(raw.enable_swagger, "true"@) != "false"@)
    &&& settings.app.env == environment_of(lowercased(text_or(raw.app_env, "development"@)))
    &&& settings.app.version@ == raw.version@
    &&& settings.logging.level@ == text_or(raw.rust_log, "info"@)
    &&& settings.logging.format == log_format_of(lowercased(text_or(raw.log_format, "pretty"@)))
}

/// The origin that stands for every origin.
pub open spec fn wildcard() -> Seq<char> {
    "*"@
}

/// Some allowed origin is the wildcard.
pub open spec fn allows_every_origin(origins: Seq<String>) -> bool {
    exists|i: int| 0 <= i < origins.len() && (#[trigger] origins[i])@ == wildcard()
}

/// The first rule that the settings break, if any: in production the wildcard
/// origin is not allowed; the port must not be 0; the pool must allow a
/// connection.
pub open spec fn first_config_error(settings: Settings) -> Option<ConfigError> {
    if settings.app.env == Environment::Production && allows_every_origin(
        settings.cors.allowed_origins@,
    ) {
        Some(ConfigError::WildcardOriginInProduction)
    } else if settings.server.port == 0 {
        Some(ConfigError::ZeroPort)
    } else if settings.database.max_connections == 0 {
        Some(ConfigError::ZeroMaxConnections)
    } else {
        None
    }
}

/// What a broken rule is reported as.
pub open spec fn config_error_text(e: ConfigError) -> Seq<char> {
    match e {
        ConfigError::WildcardOriginInProduction => "CORS wildcard (*) is not allowed in production"@,
        ConfigError::ZeroPort => "Server port must be greater than 0"@,
        ConfigError::ZeroMaxConnections => "Database max_connections must be greater than 0"@,
        ConfigError::InvalidPort => "SERVER_PORT must be a number from 0 to 65535"@,
        ConfigError::MissingDatabaseUrl => "DATABASE_URL must be set"@,
        ConfigError::InvalidMaxConnections => "DATABASE_MAX_CONNECTIONS must be a number that fits 32 bits"@,
        ConfigError::InvalidConnectTimeout => "DATABASE_CONNECT_TIMEOUT must be a number that fits 64 bits"@,
        ConfigError::InvalidMaxRequestSize => "MAX_REQUEST_SIZE must be a number that fits the machine's word"@,
    }
}

impl ConfigError {
    /// The report of this broken rule.
    pub fn to_text(&self) -> (text: String)
        ensures
            text@ == config_error_text(*self),
    {
        match self {
            ConfigError::WildcardOriginInProduction => String::from_str(
                "CORS wildcard (*) is not allowed in production",
            ),
            ConfigError::ZeroPort => String::from_str("Server port must be greater than 0"),
            ConfigError::ZeroMaxConnections => String::from_str(
                "Database max_connections must be greater than 0",
            ),
            ConfigError::InvalidPort => String::from_str(
                "SERVER_PORT must be a number from 0 to 65535",
            ),
            ConfigError::MissingDatabaseUrl => String::from_str("DATABASE_URL must be set"),
            ConfigError::InvalidMaxConnections => String::from_str(
                "DATABASE_MAX_CONNECTIONS must be a number that fits 32 bits",
            ),
            ConfigError::InvalidConnectTimeout => String::from_str(
                "DATABASE_CONNECT_TIMEOUT must be a number that fits 64 bits",
            ),
            ConfigError::InvalidMaxRequestSize => String::from_str(
                "MAX_REQUEST_SIZE must be a number that fits the machine's word",
            ),
        }
    }
}

/// The setting's text, or the default where it is not set.
fn owned_or(value: Option<String>, default: &str) -> (text: String)
    ensures
        text@ == text_or(value, default@),
{
    match value {
        Some(text) => text,
        None => String::from_str(default),
    }
}

/// Reads a setting that is a number up to `max`.
fn read_number(value: &Option<String>, default: u64, max: u64) -> (number: Option<u64>)
    ensures
        number == number_or(*value, default, max),
{
    match value {
        Some(text) => parse_number(text.as_str(), max),
        None => Some(default),
    }
}

impl Environment {
    /// The environment that a name in lower case stands for.
    pub fn from_lowercase(lower: &str) -> (env: Environment)
        ensures
            env == environment_of(lower@),
    {
        if text_equal(lower, "production") {
            Environment::Production
        } else if text_equal(lower, "staging") {
            Environment::Staging
        } else {
            Environment::Development
        }
    }

    /// The environment that a name stands for, whatever its case.
    pub fn parse(name: &str) -> (env: Environment)
        ensures
            env == environment_of(lowercased(name@)),
    {
        let lower = lowercase_text(name);
        Environment::from_lowercase(lower.as_str())
    }
}

impl LogFormat {
    /// The log format that a name in lower case stands for.
    pub fn from_lowercase(lower: &str) -> (format: LogFormat)
        ensures
            format == log_format_of(lower@),
    {
        if text_equal(lower, "json") {
            LogFormat::Json
        } else if text_equal(lower, "compact") {
            LogFormat::Compact
        } else {
            LogFormat::Pretty
        }
    }

    /// The log format that a name stands for, whatever its case.
    pub fn parse(name: &str) -> (format: LogFormat)
        ensures
            format == log_format_of(lowercased(name@)),
    {
        let lower = lowercase_text(name);
        LogFormat::from_lowercase(lower.as_str())
    }
}

impl CorsConfig {
    /// Whether every origin is to be let in without a look at it: the wildcard
    /// is the one allowed origin.
    pub fn is_permissive(&self) -> (yes: bool)
        ensures
            yes == (self.allowed_origins@.len() == 1 && self.allowed_origins@[0]@ == wildcard()),
    {
        self.allowed_origins.len() == 1 && text_equal(self.allowed_origins[0].as_str(), "*")
    }

    /// Whether some allowed origin is the wildcard.
    pub fn allows_every_origin(&self) -> (any: bool)
        ensures
            any == allows_every_origin(self.allowed_origins@),
    {
        let mut i: usize = 0;
        while i < self.allowed_origins.len()
            invariant
                i <= self.allowed_origins.len(),
                forall|k: int| 0 <= k < i ==> (#[trigger] self.allowed_origins@[k])@ != wildcard(),
            decreases self.allowed_origins.len() - i,
        {
            if text_equal(self.allowed_origins[i].as_str(), "*") {
                return true;
            }
            i += 1;
        }
        false
    }
}

impl Settings {
    /// Reads the settings from their raw texts, with a default for each that
    /// is not set but the address of the store, which must be set.
    pub fn from_raw(raw: RawSettings) -> (loaded: Result<Settings, ConfigError>)
        ensures
            first_load_error(raw) is Some ==> loaded == Err::<Settings, ConfigError>(
                first_load_error(raw)->0,
            ),
            first_load_error(raw) is None ==> loaded is Ok && reads_as(raw, loaded->Ok_0),
    {
        let port = match read_number(&raw.server_port, DEFAULT_PORT as u64, u16::MAX as u64) {
            Some(port) => port as u16,
            None => {
                return Err(ConfigError::InvalidPort);
            },
        };
        let url = match raw.database_url {
            Some(url) => url,
            None => {
                return Err(ConfigError::MissingDatabaseUrl);
            },
        };
        let max_connections = match read_number(
            &raw.database_max_connections,
            DEFAULT_MAX_CONNECTIONS as u64,
            u32::MAX as u64,
        ) {
            Some(n) => n as u32,
            None => {
                return Err(ConfigError::InvalidMaxConnections);
            },
        };
        let connect_timeout = match read_number(
            &raw.database_connect_timeout,
            DEFAULT_CONNECT_TIMEOUT,
            u64::MAX,
        ) {
            Some(n) => n,
            None => {
                return Err(ConfigError::InvalidConnectTimeout);
            },
        };
        let max_request_size = match read_number(
            &raw.max_request_size,
            DEFAULT_MAX_REQUEST_SIZE as u64,
            usize::MAX as u64,
        ) {
            Some(n) => n as usize,
            None => {
                return Err(ConfigError::InvalidMaxRequestSize);
            },
        };
        let origins = owned_or(raw.cors_allowed_origins, "*");
        let allowed_origins = split_and_trim(origins.as_str(), ',');
        let swagger = owned_or(raw.enable_swagger, "true");
        let enable_swagger = !text_equal(swagger.as_str(), "false");
        let env_name = owned_or(raw.app_env, "development");
        let env = Environment::parse(env_name.as_str());
        let format_name = owned_or(raw.log_format, "pretty");
        let format = LogFormat::parse(format_name.as_str());
        Ok(
            Settings {
                server: ServerConfig { host: owned_or(raw.server_host, "127.0.0.1"), port },
                database: DatabaseConfig { url, max_connections, connect_timeout },
                cors: CorsConfig { allowed_origins },
                api: ApiConfig { max_request_size, enable_swagger },
                app: AppConfig { env, version: raw.version },
                logging: LoggingConfig { level: owned_or(raw.rust_log, "info"), format },
            },
        )
    }

    /// Checks the settings against the rules and reports the first that is
    /// broken.
    pub fn validate(&self) -> (checked: Result<(), ConfigError>)
        ensures
            first_config_error(*self) is None ==> checked is Ok,
            first_config_error(*self) is Some ==> checked == Err::<(), ConfigError>(
                first_config_error(*self)->0,
            ),
    {
        if self.is_production() && self.cors.allows_every_origin() {
            return Err(ConfigError::WildcardOriginInProduction);
        }
        if self.server.port == 0 {
            return Err(ConfigError::ZeroPort);
        }
        if self.database.max_connections == 0 {
            return Err(ConfigError::ZeroMaxConnections);
        }
        Ok(())
    }

    /// Whether the service runs in development.
    pub fn is_development(&self) -> (yes: bool)
        ensures
            yes == (self.app.env == Environment::Development),
    {
        self.app.env == Environment::Development
    }

    /// Whether the service runs in production.
    pub fn is_production(&self) -> (yes: bool)
        ensures
            yes == (self.app.env == Environment::Production),
    {
        self.app.env == Environment::Production
    }
}

} // verus!
