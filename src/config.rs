//! Server configuration and its defaults.
use vstd::prelude::*;
use vstd::string::StringExecFns;

verus! {

/// The whole configuration of the server.
#[derive(Clone, Debug)]
pub struct Config {
    pub server: ServerConfig,
    pub files: FilesConfig,
    pub database: DatabaseConfig,
    pub logging: LoggingConfig,
    pub security: SecurityConfig,
    pub features: FeaturesConfig,
}

#[derive(Clone, Debug)]
pub struct ServerConfig {
    pub name: String,
    pub description: String,
    pub address: String,
    pub port: u16,
    pub max_connections: usize,
}

#[derive(Clone, Debug)]
pub struct FilesConfig {
    pub root_path: String,
    pub max_download_size: u64,
    pub enable_uploads: bool,
    pub enable_downloads: bool,
}

#[derive(Clone, Debug)]
pub struct DatabaseConfig {
    pub path: String,
}

#[derive(Clone, Debug)]
pub struct LoggingConfig {
    pub level: String,
    pub file: String,
}

#[derive(Clone, Debug)]
pub struct SecurityConfig {
    pub require_login: bool,
    pub allow_guest: bool,
    pub ban_list_path: String,
}

#[derive(Clone, Debug)]
pub struct FeaturesConfig {
    pub enable_news: bool,
    pub enable_private_chat: bool,
    pub enable_file_transfers: bool,
}

impl Config {
    /// The configuration of a fresh installation: port 5500, at most 100
    /// connections, logins required and guests refused.
    pub fn default() -> (r: Self)
        ensures
            r.server.name@ == "My Hotline Server"@,
            r.server.description@ == "A modern Rust Hotline server"@,
            r.server.address@ == "0.0.0.0"@,
            r.server.port == 5500,
            r.server.max_connections == 100,
            r.files.root_path@ == "./files"@,
            r.files.max_download_size == 104857600,
            r.files.enable_uploads,
            r.files.enable_downloads,
            r.database.path@ == "./rhxd.db"@,
            r.logging.level@ == "info"@,
            r.logging.file@ == "./logs/rhxd.log"@,
            r.security.require_login,
            !r.security.allow_guest,
            r.security.ban_list_path@ == "./banlist.txt"@,
            !r.features.enable_news,
            r.features.enable_private_chat,
            !r.features.enable_file_transfers,
    {
        Config {
            server: ServerConfig {
                name: <String as StringExecFns>::from_str("My Hotline Server"),
                description: <String as StringExecFns>::from_str("A modern Rust Hotline server"),
                address: <String as StringExecFns>::from_str("0.0.0.0"),
                port: 5500,
                max_connections: 100,
            },
            files: FilesConfig {
                root_path: <String as StringExecFns>::from_str("./files"),
                max_download_size: 104857600,
                enable_uploads: true,
                enable_downloads: true,
            },
            database: DatabaseConfig { path: <String as StringExecFns>::from_str("./rhxd.db") },
            logging: LoggingConfig {
                level: <String as StringExecFns>::from_str("info"),
                file: <String as StringExecFns>::from_str("./logs/rhxd.log"),
            },
            security: SecurityConfig {
                require_login: true,
                allow_guest: false,
                ban_list_path: <String as StringExecFns>::from_str("./banlist.txt"),
            },
            features: FeaturesConfig {
                enable_news: false,
                enable_private_chat: true,
                enable_file_transfers: false,
            },
        }
    }
}

/// A new connection is accepted only while fewer than `max_connections`
/// sessions live; otherwise it is dropped without a reply.
pub fn accepts_connection(live_sessions: usize, max_connections: usize) -> (r: bool)
    ensures
        r == (live_sessions < max_connections),
{
    live_sessions < max_connections
}

} // verus!
