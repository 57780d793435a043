//! The configuration of the proxy and of its desktop client.

use vstd::prelude::*;
use vstd::string::*;

use crate::text::{concat3, decimal, owned, u64_to_decimal};

verus! {

/// The port the server listens on unless configured otherwise.
pub const DEFAULT_PORT: u16 = 31415;

/// The host the server listens on unless configured otherwise.
pub const DEFAULT_HOST: &'static str = "localhost";

/// The whole configuration.
#[derive(Debug)]
pub struct Config {
    pub server: ServerConfig,
    pub ui: UiConfig,
    pub logging: LoggingConfig,
}

/// Where the server listens.
#[derive(Debug)]
pub struct ServerConfig {
    pub host: String,
    pub port: u16,
}

/// Preferences of the desktop client. `theme` is `light`, `dark` or
/// `system`.
#[derive(Debug)]
pub struct UiConfig {
    pub theme: String,
    pub language: String,
    pub auto_start: bool,
    pub minimize_to_tray: bool,
}

/// Logging: the level (`debug`, `info`, `warn`, `error`) and how many days
/// request logs are kept.
#[derive(Debug)]
pub struct LoggingConfig {
    pub level: String,
    pub retention_days: u32,
}

pub struct ServerConfigView {
    pub host: Seq<char>,
    pub port: u16,
}

pub struct UiConfigView {
    pub theme: Seq<char>,
    pub language: Seq<char>,
    pub auto_start: bool,
    pub minimize_to_tray: bool,
}

pub struct LoggingConfigView {
    pub level: Seq<char>,
    pub retention_days: u32,
}

pub struct ConfigView {
    pub server: ServerConfigView,
    pub ui: UiConfigView,
    pub logging: LoggingConfigView,
}

impl View for ServerConfig {
    type V = ServerConfigView;

    open spec fn view(&self) -> ServerConfigView {
        ServerConfigView { host: self.host@, port: self.port }
    }
}

impl View for UiConfig {
    type V = UiConfigView;

    open spec fn view(&self) -> UiConfigView {
        UiConfigView {
            theme: self.theme@,
            language: self.language@,
            auto_start: self.auto_start,
            minimize_to_tray: self.minimize_to_tray,
        }
    }
}

impl View for LoggingConfig {
    type V = LoggingConfigView;

    open spec fn view(&self) -> LoggingConfigView {
        LoggingConfigView { level: self.level@, retention_days: self.retention_days }
    }
}

impl View for Config {
    type V = ConfigView;

    open spec fn view(&self) -> ConfigView {
        ConfigView { server: self.server@, ui: self.ui@, logging: self.logging@ }
    }
}

/// The host used when the configuration gives none.
pub fn default_host() -> (r: String)
    ensures
        r@ == "localhost"@,
{
    owned(DEFAULT_HOST)
}

/// The port used when the configuration gives none.
pub fn default_port() -> (r: u16)
    ensures
        r == 31415,
{
    DEFAULT_PORT
}

/// The theme used when the configuration gives none.
pub fn default_theme() -> (r: String)
    ensures
        r@ == "system"@,
{
    owned("system")
}

/// The language used when the configuration gives none.
pub fn default_language() -> (r: String)
    ensures
        r@ == "zh-CN"@,
{
    owned("zh-CN")
}

/// The value of flags that are on unless configured otherwise.
pub fn default_true() -> (r: bool)
    ensures
        r,
{
    true
}

/// The log level used when the configuration gives none.
pub fn default_log_level() -> (r: String)
    ensures
        r@ == "info"@,
{
    owned("info")
}

/// The number of days logs are kept when the configuration gives none.
pub fn default_retention_days() -> (r: u32)
    ensures
        r == 7,
{
    7
}

impl Default for ServerConfig {
    /// `localhost:31415`.
    fn default() -> (r: Self)
        ensures
            r@ == (ServerConfigView { host: "localhost"@, port: 31415 }),
    {
        ServerConfig { host: owned(DEFAULT_HOST), port: DEFAULT_PORT }
    }
}

impl Default for UiConfig {
    /// Theme `system` (one of the documented themes), empty language, both
    /// flags off. A section read from a file without some of its keys takes
    /// the fields' own defaults instead (`default_language`, `default_true`).
    fn default() -> (r: Self)
        ensures
            r@ == (UiConfigView {
                theme: "system"@,
                language: Seq::empty(),
                auto_start: false,
                minimize_to_tray: false,
            }),
    {
        UiConfig {
            theme: default_theme(),
            language: String::new(),
            auto_start: false,
            minimize_to_tray: false,
        }
    }
}

impl Default for LoggingConfig {
    /// Level `info`, logs kept for 7 days.
    fn default() -> (r: Self)
        ensures
            r@ == (LoggingConfigView { level: "info"@, retention_days: 7 }),
    {
        LoggingConfig { level: default_log_level(), retention_days: default_retention_days() }
    }
}

impl Default for Config {
    /// The defaults of the three sections.
    fn default() -> (r: Self)
        ensures
            r@.server == (ServerConfigView { host: "localhost"@, port: 31415 }),
            r@.ui == (UiConfigView {
                theme: "system"@,
                language: Seq::empty(),
                auto_start: false,
                minimize_to_tray: false,
            }),
            r@.logging == (LoggingConfigView { level: "info"@, retention_days: 7 }),
    {
        Config {
            server: ServerConfig::default(),
            ui: UiConfig::default(),
            logging: LoggingConfig::default(),
        }
    }
}

impl ServerConfig {
    /// The `host:port` address the server binds to.
    pub fn listen_address(&self) -> (r: String)
        ensures
            r@ == self.host@ + ":"@ + decimal(self.port as nat),
    {
        let port = u64_to_decimal(self.port as u64);
        concat3(self.host.as_str(), ":", port.as_str())
    }
}

impl Clone for ServerConfig {
    fn clone(&self) -> (r: Self)
        ensures
            r@ == self@,
    {
        ServerConfig { host: self.host.clone(), port: self.port }
    }
}

impl Clone for UiConfig {
    fn clone(&self) -> (r: Self)
        ensures
            r@ == self@,
    {
        UiConfig {
            theme: self.theme.clone(),
            language: self.language.clone(),
            auto_start: self.auto_start,
            minimize_to_tray: self.minimize_to_tray,
        }
    }
}

impl Clone for LoggingConfig {
    fn clone(&self) -> (r: Self)
        ensures
            r@ == self@,
    {
        LoggingConfig { level: self.level.clone(), retention_days: self.retention_days }
    }
}

impl Clone for Config {
    fn clone(&self) -> (r: Self)
        ensures
            r@ == self@,
    {
        Config { server: self.server.clone(), ui: self.ui.clone(), logging: self.logging.clone() }
    }
}

} // verus!
