//! The settings of a deployment that mirrors channels by name.

use vstd::prelude::*;
use vstd::string::StringExecFns;
use crate::types::LogLevel;

verus! {

/// The settings read from the configuration file.
#[derive(Debug)]
pub struct Configuration {
    pub token: String,
    pub prefix: String,
    pub channel_name: String,
    pub admins: Option<Vec<String>>,
    pub log_level: LogLevel,
}

/// The command prefix used where the file names none.
pub fn default_prefix() -> (prefix: String)
    ensures
        prefix@ == "r~"@,
{
    String::from_str("r~")
}

/// The name of the mirror channel used where the file names none.
pub fn default_channel_name() -> (name: String)
    ensures
        name@ == "megachat"@,
{
    String::from_str("megachat")
}

/// The log level used where the file names none.
pub fn default_log_level() -> (level: LogLevel)
    ensures
        level == LogLevel::Info,
{
    LogLevel::Info
}

} // verus!
