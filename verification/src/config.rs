//! Process configuration, built once at startup and passed by reference.

use crate::errors::{AppError, AppResult};
use vstd::prelude::*;

verus! {

#[derive(Debug, Clone)]
pub struct Config {
    pub database_url: String,
    /// The secret the token keys are derived from.
    pub jwt_secret: String,
    pub server_addr: String,
}

/// The address the server listens on when none is configured.
pub open spec fn default_server_addr() -> Seq<char> {
    "127.0.0.1:3000"@
}

/// The detail of the error for a required variable that is not set.
pub open spec fn missing_variable_text() -> Seq<char> {
    "environment variable not found"@
}

impl Config {
    /// `out` is the configuration of the three values: an error where a
    /// required one is missing, else the values with the address defaulted.
    pub open spec fn built_from(
        out: AppResult<Config>,
        database_url: Option<String>,
        jwt_secret: Option<String>,
        server_addr: Option<String>,
    ) -> bool {
        if database_url is Some && jwt_secret is Some {
            out matches Ok(c) && c.database_url == database_url->0 && c.jwt_secret == jwt_secret->0
                && c.server_addr@ == (match server_addr {
                Some(addr) => addr@,
                None => default_server_addr(),
            })
        } else {
            out matches Err(AppError::ConfigError(d)) && d@ == missing_variable_text()
        }
    }

    /// Builds the configuration from the values of the variables
    /// `DATABASE_URL`, `JWT_SECRET` and `SERVER_ADDR`, each `None` where the
    /// variable is not set. The first two are required; the address falls back
    /// to its default.
    pub fn from_vars(
        database_url: Option<String>,
        jwt_secret: Option<String>,
        server_addr: Option<String>,
    ) -> (out: AppResult<Config>)
        ensures
            Config::built_from(out, database_url, jwt_secret, server_addr),
    {
        let database_url = match database_url {
            Some(url) => url,
            None => return Err(AppError::ConfigError("environment variable not found".to_owned())),
        };
        let jwt_secret = match jwt_secret {
            Some(secret) => secret,
            None => return Err(AppError::ConfigError("environment variable not found".to_owned())),
        };
        let server_addr = match server_addr {
            Some(addr) => addr,
            None => "127.0.0.1:3000".to_owned(),
        };
        Ok(Config { database_url, jwt_secret, server_addr })
    }
}

} // verus!
