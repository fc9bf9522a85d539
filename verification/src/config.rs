//! Configuration values as pure checks: the environment reads stay with the
//! binary, which hands the read strings in.

use crate::tcp_message::kw_match;
use vstd::prelude::*;

verus! {

/// Environment variable naming the application environment.
pub const APP_ENV: &'static str = "CHAT_APP_ENV";

pub const DEFAULT_TZ: &'static str = "Etc/UTC";

pub const APP_ENV_DEFAULT_VALUE: &'static str = "development";

pub const APP_ENV_PROD_VALUE: &'static str = "production";

/// Environment variable naming the log level.
pub const DEFAULT_LOG_LEVEL: &'static str = "CHAT_APP_LOG_LEVEL";

pub const DEFAULT_LOG_LEVEL_DEFAULT_VALUE: &'static str = "info";

/// Error returned when an invalid log level is specified.
#[derive(Debug, Clone)]
pub struct InvalidLogLevelError {
    pub level: String,
}

impl InvalidLogLevelError {
    /// The diagnostic line naming the rejected level.
    pub fn message(&self) -> (r: String)
        ensures
            r@ == "Invalid log level: '"@ + self.level@
                + "'. Must be one of: trace, debug, info, warn, error, off"@,
    {
        String::from_str("Invalid log level: '").concat(self.level.as_str()).concat(
            "'. Must be one of: trace, debug, info, warn, error, off",
        )
    }
}

/// Whether the given application-environment value selects production.
pub fn is_production(app_env: &str) -> (r: bool)
    ensures
        r == (app_env@ == "production"@),
{
    crate::strings::str_eq(app_env, "production")
}

/// Whether a level names one of: trace, debug, info, warn, error, off
/// (ASCII-case-insensitively).
pub open spec fn valid_log_level(level: Seq<char>) -> bool {
    ||| kw_match(level, "TRACE"@)
    ||| kw_match(level, "DEBUG"@)
    ||| kw_match(level, "INFO"@)
    ||| kw_match(level, "WARN"@)
    ||| kw_match(level, "ERROR"@)
    ||| kw_match(level, "OFF"@)
}

/// Accepts a known log level as it was written; rejects anything else,
/// naming the rejected text.
pub fn log_level(level: &str) -> (r: Result<String, InvalidLogLevelError>)
    ensures
        r matches Ok(l) ==> l@ == level@ && valid_log_level(level@),
        r matches Err(e) ==> e.level@ == level@ && !valid_log_level(level@),
{
    if crate::tcp_message::matches_keyword(level, "TRACE") || crate::tcp_message::matches_keyword(
        level,
        "DEBUG",
    ) || crate::tcp_message::matches_keyword(level, "INFO") || crate::tcp_message::matches_keyword(
        level,
        "WARN",
    ) || crate::tcp_message::matches_keyword(level, "ERROR") || crate::tcp_message::matches_keyword(
        level,
        "OFF",
    ) {
        Ok(level.to_owned())
    } else {
        Err(InvalidLogLevelError { level: level.to_owned() })
    }
}

} // verus!
