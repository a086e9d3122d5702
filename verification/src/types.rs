//! The configuration a deployment is started with.

use vstd::prelude::*;

verus! {

/// How much is logged: nothing, or everything up to the named level.
#[derive(Clone, Copy, Debug, PartialEq, Eq, Structural)]
pub enum LogLevel {
    Off,
    Error,
    Warn,
    Info,
    Debug,
    Trace,
}

/// The settings read from the configuration file.
#[derive(Debug)]
pub struct Configuration {
    pub token: String,
    pub prefix: String,
    pub log_file: String,
    pub log_level: LogLevel,
    pub admins: Option<Vec<u64>>,
    pub database: DatabaseConfig,
}

/// How to reach the registry's store.
#[derive(Debug)]
pub struct DatabaseConfig {
    pub host: String,
    pub max_connections: u32,
}

/// The name under which the store's connection pool is shared.
#[derive(Debug)]
pub struct Database;

} // verus!
