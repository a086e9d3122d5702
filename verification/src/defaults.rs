//! The values a configuration takes where the file leaves them out.

use vstd::prelude::*;
use vstd::string::StringExecFns;
use crate::types::LogLevel;
use crate::types::DatabaseConfig;

verus! {

/// The command prefix.
pub fn prefix() -> (prefix: String)
    ensures
        prefix@ == "r~"@,
{
    String::from_str("r~")
}

/// The file the log is written to.
pub fn log_file() -> (file: String)
    ensures
        file@ == "output.log"@,
{
    String::from_str("output.log")
}

/// The most verbose level that is logged.
pub fn log_level() -> (level: LogLevel)
    ensures
        level == LogLevel::Info,
{
    LogLevel::Info
}

/// The store's settings.
pub fn database_configuration() -> (database: DatabaseConfig)
    ensures
        database.host@ == "redis://localhost"@,
        database.max_connections == 20,
{
    DatabaseConfig { host: database_host(), max_connections: database_max_connections() }
}

/// The size of the connection pool.
pub fn database_max_connections() -> (connections: u32)
    ensures
        connections == 20,
{
    20
}

/// The address of the store.
pub fn database_host() -> (host: String)
    ensures
        host@ == "redis://localhost"@,
{
    String::from_str("redis://localhost")
}

} // verus!
