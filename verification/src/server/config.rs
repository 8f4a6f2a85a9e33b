//! The settings of the daemon.
use crate::text;
use vstd::prelude::*;

verus! {

/// The arguments of the daemon.
#[derive(Debug)]
pub struct ServerArgs {
    /// Path to configuration file.
    pub config: String,
    /// Path to log file (stdout if not provided).
    pub log: Option<String>,
    /// Run in foreground instead of daemonizing.
    pub foreground: bool,
}

/// The configuration file that is read where none is named.
pub fn default_config() -> (r: String)
    ensures
        r@ == "server_config.yaml"@,
{
    "server_config.yaml".to_owned()
}

/// The settings of the daemon.
#[derive(Debug)]
pub struct ServerConfig {
    pub remote_host: String,
}

/// What came of reading and parsing a configuration file.
#[derive(Debug)]
pub enum ServerConfigSource {
    /// The file could not be read.
    Missing,
    /// The file does not hold settings, and why.
    Malformed(String),
    /// The file holds settings.
    Parsed(ServerConfig),
}

/// What is said of a configuration file that cannot be used.
pub open spec fn config_warning(config_path: Seq<char>, source: ServerConfigSource) -> Option<
    Seq<char>,
> {
    match source {
        ServerConfigSource::Missing => Some(
            "Config file "@ + config_path + " not found. Using default config."@,
        ),
        ServerConfigSource::Malformed(e) => Some(
            "Failed to parse "@ + config_path + ": "@ + e@ + ". Using default config."@,
        ),
        ServerConfigSource::Parsed(_) => None,
    }
}

/// The remote host that the settings name.
pub open spec fn configured_host(source: ServerConfigSource) -> Seq<char> {
    match source {
        ServerConfigSource::Parsed(config) => config.remote_host@,
        _ => "user@remote"@,
    }
}

/// The settings of a file that can be used are taken as they are, and nothing is said of it. A file
/// that cannot be used is told of, and the default settings are taken.
pub proof fn law_settings_are_taken_from_the_file(
    config_path: Seq<char>,
    source: ServerConfigSource,
)
    ensures
        source matches ServerConfigSource::Parsed(config) ==> configured_host(source)
            == config.remote_host@,
        !(source is Parsed) ==> configured_host(source) == "user@remote"@,
        config_warning(config_path, source) is None <==> source is Parsed,
{
}

/// The settings from a configuration file, or the default ones, with what is said of a file that
/// cannot be used.
pub fn load_server_config(config_path: &str, source: ServerConfigSource) -> (r: (
    ServerConfig,
    Option<String>,
))
    ensures
        r.0.remote_host@ == (match source {
            ServerConfigSource::Parsed(config) => config.remote_host@,
            _ => "user@remote"@,
        }),
        r.0.remote_host@ == configured_host(source),
        text::optional_text(r.1) == config_warning(config_path@, source),
{
    match source {
        ServerConfigSource::Parsed(config) => (config, None),
        ServerConfigSource::Malformed(e) => (
            ServerConfig { remote_host: "user@remote".to_owned() },
            Some(
                text::cat5("Failed to parse ", config_path, ": ", &e, ". Using default config."),
            ),
        ),
        ServerConfigSource::Missing => (
            ServerConfig { remote_host: "user@remote".to_owned() },
            Some(text::cat3("Config file ", config_path, " not found. Using default config.")),
        ),
    }
}

} // verus!
