use vstd::prelude::*;

pub mod discord;
pub mod logging;
pub mod radarr;
pub mod server;

verus! {

/// The whole configuration, as read from the configuration file.
pub struct AppConfig {
    pub server: ServerConfig,
    pub database_path: String,
    pub logging: LoggingConfig,
    pub radarr: RadarrConfig,
    pub discord: DiscordConfig,
}

/// Where the control surface listens.
pub struct ServerConfig {
    pub host: String,
    pub port: u16,
}

/// Log level and optional log file.
pub struct LoggingConfig {
    pub level: String,
    pub file: Option<String>,
}

/// The monitored service: base URL and API key.
pub struct RadarrConfig {
    pub url: String,
    pub apikey: String,
}

/// The chat webhook that notifications are posted to.
pub struct DiscordConfig {
    pub webhook_url: String,
}

#[verifier::external_type_specification]
#[verifier::external_body]
pub struct ExJsonError(serde_json::Error);

/// Why the configuration, or a setting of it, could not be had.
#[derive(Debug)]
pub enum ConfigError {
    FileNotFound,
    InvalidJson(serde_json::Error),
    ValidationError(String),
    SettingNotFound(String),
    TypeError(String),
}

/// The configuration of the process: empty until initialised, then set once.
pub struct ConfigStore {
    config: Option<AppConfig>,
}

impl ConfigStore {
    pub closed spec fn current(&self) -> Option<AppConfig> {
        self.config
    }

    /// A store that holds no configuration yet.
    pub fn new() -> (r: ConfigStore)
        ensures
            r.current() is None,
    {
        ConfigStore { config: None }
    }

    /// Stores `config`; refused once a configuration is stored.
    pub fn init(&mut self, config: AppConfig) -> (r: Result<(), ConfigError>)
        ensures
            old(self).current() is None ==> r is Ok && final(self).current() == Some(config),
            old(self).current() is Some ==> final(self).current() == old(self).current() && (
            r matches Err(ConfigError::ValidationError(m)) && m@ == "Config already initialized"@),
    {
        if self.config.is_some() {
            return Err(ConfigError::ValidationError(String::from_str("Config already initialized")));
        }
        self.config = Some(config);
        Ok(())
    }
}

/// The stored configuration; an error until one is stored.
pub fn config(store: &ConfigStore) -> (r: Result<&AppConfig, ConfigError>)
    ensures
        store.current() matches Some(c) ==> r == Ok::<&AppConfig, ConfigError>(&c),
        store.current() is None ==> (r matches Err(ConfigError::ValidationError(m)) && m@
            == "Config not initialized"@),
{
    match &store.config {
        Some(c) => Ok(c),
        None => Err(ConfigError::ValidationError(String::from_str("Config not initialized"))),
    }
}

/// Names a setting by its dotted path in the configuration file.
pub trait ConfigPath {
    spec fn path_spec(&self) -> Seq<char>;

    fn path(&self) -> (r: &'static str)
        ensures
            r@ == self.path_spec(),
    ;
}

/// The settings that can be looked up by name.
#[derive(Clone, Copy, Debug, PartialEq, Eq, Structural)]
pub enum Setting {
    ServerHost,
    ServerPort,
    DatabasePath,
    LoggingLevel,
    LoggingFile,
    RadarrUrl,
    RadarrApikey,
    DiscordWebhookUrl,
}

impl ConfigPath for Setting {
    open spec fn path_spec(&self) -> Seq<char> {
        match self {
            Setting::ServerHost => "server.host"@,
            Setting::ServerPort => "server.port"@,
            Setting::DatabasePath => "database_path"@,
            Setting::LoggingLevel => "logging.level"@,
            Setting::LoggingFile => "logging.file"@,
            Setting::RadarrUrl => "radarr.url"@,
            Setting::RadarrApikey => "radarr.apikey"@,
            Setting::DiscordWebhookUrl => "discord.webhook_url"@,
        }
    }

    fn path(&self) -> (r: &'static str) {
        match self {
            Setting::ServerHost => "server.host",
            Setting::ServerPort => "server.port",
            Setting::DatabasePath => "database_path",
            Setting::LoggingLevel => "logging.level",
            Setting::LoggingFile => "logging.file",
            Setting::RadarrUrl => "radarr.url",
            Setting::RadarrApikey => "radarr.apikey",
            Setting::DiscordWebhookUrl => "discord.webhook_url",
        }
    }
}

} // verus!
