//! Startup configuration: the secret token.
//!
//! The token arrives as an optional plain string (the caller reads it from
//! the environment); a missing value is a fatal configuration error.

use vstd::prelude::*;

verus! {

/// The bot's secret token, loaded once at startup.
pub struct Token {
    pub token: String,
}

/// Why startup configuration failed.
#[derive(Debug)]
pub enum ConfigError {
    /// No token value was supplied.
    MissingToken,
}

impl ConfigError {
    /// A human-readable description of the error.
    pub fn message(&self) -> (s: &'static str)
        ensures
            s@ == "the token is missing from the environment"@,
    {
        "the token is missing from the environment"
    }
}

/// Builds the startup configuration from the token value, if one was
/// supplied; fails exactly when none was.
pub fn getconf(value: Option<String>) -> (r: Result<Token, ConfigError>)
    ensures
        match value {
            Some(s) => r matches Ok(t) && t.token == s,
            None => r matches Err(ConfigError::MissingToken),
        },
{
    match value {
        Some(s) => Ok(Token { token: s }),
        None => Err(ConfigError::MissingToken),
    }
}

} // verus!
