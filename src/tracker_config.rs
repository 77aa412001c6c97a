//! Configuration of the tracker and its defaults.
use vstd::prelude::*;
use vstd::string::StringExecFns;

verus! {

/// The whole configuration of the tracker.
#[derive(Clone, Debug)]
pub struct Config {
    pub server: ServerConfig,
    pub http: HttpConfig,
    pub database: DatabaseConfig,
    pub registry: RegistryConfig,
    pub logging: LoggingConfig,
}

#[derive(Clone, Debug)]
pub struct ServerConfig {
    pub name: String,
    pub address: String,
    pub port: u16,
}

#[derive(Clone, Debug)]
pub struct HttpConfig {
    pub enabled: bool,
    pub address: String,
    pub port: u16,
}

#[derive(Clone, Debug)]
pub struct DatabaseConfig {
    pub path: String,
}

#[derive(Clone, Debug)]
pub struct RegistryConfig {
    pub server_ttl_seconds: u64,
    pub cleanup_interval_seconds: u64,
}

#[derive(Clone, Debug)]
pub struct LoggingConfig {
    pub level: String,
    pub file: String,
}

impl Config {
    /// The configuration of a fresh tracker: port 5498, HTTP on 8080,
    /// listings kept an hour and swept every five minutes.
    pub fn default() -> (r: Self)
        ensures
            r.server.name@ == "My Hotline Tracker"@,
            r.server.address@ == "0.0.0.0"@,
            r.server.port == 5498,
            r.http.enabled,
            r.http.address@ == "0.0.0.0"@,
            r.http.port == 8080,
            r.database.path@ == "./rhxtrackd.db"@,
            r.registry.server_ttl_seconds == 3600,
            r.registry.cleanup_interval_seconds == 300,
            r.logging.level@ == "info"@,
            r.logging.file@ == "./logs/rhxtrackd.log"@,
    {
        Config {
            server: ServerConfig {
                name: <String as StringExecFns>::from_str("My Hotline Tracker"),
                address: <String as StringExecFns>::from_str("0.0.0.0"),
                port: 5498,
            },
            http: HttpConfig {
                enabled: true,
                address: <String as StringExecFns>::from_str("0.0.0.0"),
                port: 8080,
            },
            database: DatabaseConfig { path: <String as StringExecFns>::from_str("./rhxtrackd.db") },
            registry: RegistryConfig { server_ttl_seconds: 3600, cleanup_interval_seconds: 300 },
            logging: LoggingConfig {
                level: <String as StringExecFns>::from_str("info"),
                file: <String as StringExecFns>::from_str("./logs/rhxtrackd.log"),
            },
        }
    }
}

} // verus!
