//! The stored configuration and the rule by which the access token is
//! resolved: the environment first, the stored configuration second.

use vstd::prelude::*;

verus! {

/// The name under which the configuration is stored.
pub const APP_NAME: &'static str = "devin";

/// The name of the stored configuration.
pub const CONFIG_NAME: &'static str = "config";

/// The environment variable that may hold the token.
pub const ENV_VAR_NAME: &'static str = "DEVIN_API_TOKEN";

/// The stored configuration.
#[derive(Debug, PartialEq, Eq)]
pub struct Config {
    pub api_token: String,
}

impl Default for Config {
    /// The configuration that holds no token.
    fn default() -> (config: Config)
        ensures
            config.api_token@ == Seq::<char>::empty(),
    {
        Config { api_token: String::new() }
    }
}

impl Config {
    /// The configuration that holds `token`.
    pub fn with_token(token: &str) -> (config: Config)
        ensures
            config.api_token@ == token@,
    {
        Config { api_token: String::from_str(token) }
    }
}

/// Why no token was resolved.
#[derive(Clone, Copy, Debug, PartialEq, Eq, Structural)]
pub enum ConfigError {
    /// Neither the environment nor the stored configuration holds a token.
    TokenNotFound,
}

impl ConfigError {
    /// The text that describes this error to the user.
    pub fn message(&self) -> (message: String)
        ensures
            message@ == "API token not found"@,
    {
        String::from_str("API token not found")
    }
}

/// The token that the environment gives: the value of the variable, if it
/// is set and not empty.
pub open spec fn env_token(value: Option<String>) -> Option<Seq<char>> {
    match value {
        Some(token) if token@.len() > 0 => Some(token@),
        _ => None,
    }
}

/// The token that the environment gives, if any. Where it gives none, the
/// stored configuration is asked.
pub fn token_from_env(value: Option<String>) -> (token: Option<String>)
    ensures
        match token {
            Some(found) => env_token(value) == Some(found@),
            None => env_token(value) is None,
        },
{
    match value {
        Some(token) => {
            if !token.as_str().is_empty() {
                Some(token)
            } else {
                None
            }
        },
        None => None,
    }
}

/// The token that the stored configuration gives: the one it holds, unless
/// that is empty.
pub fn token_from_config(config: Config) -> (token: Result<String, ConfigError>)
    ensures
        match token {
            Ok(found) => found@ == config.api_token@ && found@.len() > 0,
            Err(error) => config.api_token@.len() == 0 && error == ConfigError::TokenNotFound,
        },
{
    if config.api_token.as_str().is_empty() {
        return Err(ConfigError::TokenNotFound);
    }
    Ok(config.api_token)
}

} // verus!
