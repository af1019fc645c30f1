//! The bounded connection pool's settings, and what decides whether a pool
//! exists at startup.

use vstd::prelude::*;
use crate::db::error::{PoolError, VarFault};

verus! {

/// The most store connections held at once.
pub const MAX_CONNECTIONS: u32 = 5;

/// The longest wait for a free connection, in seconds, before an acquisition
/// fails.
pub const ACQUIRE_TIMEOUT_SECS: u64 = 3;

/// What a pool is opened with.
#[derive(Debug, Clone)]
pub struct PoolSettings {
    pub database_url: String,
    pub max_connections: u32,
    pub acquire_timeout_secs: u64,
}

/// Whether the store driver's parser takes the text as a connection string.
pub uninterp spec fn connection_string_accepted(url: Seq<char>) -> bool;

/// `<sqlx::postgres::PgConnectOptions as FromStr>::from_str`, for its verdict.
///
/// Trusted: whether the parser takes the text depends on the text alone. It
/// refuses text that is no URL, a part that does not decode as UTF-8, and a
/// port, address, TLS mode or cache size that does not parse; what it reads
/// from the environment only fills in defaults.
#[verifier::external_body]
fn connection_string_parses(url: &str) -> (accepted: bool)
    ensures
        accepted == connection_string_accepted(url@),
{
    url.parse::<sqlx::postgres::PgConnectOptions>().is_ok()
}

/// The settings for a configured connection string, given the parser's
/// verdict on it.
pub open spec fn settings_for(
    database_url: Result<String, VarFault>,
    accepted: bool,
    r: Result<PoolSettings, PoolError>,
) -> bool {
    match database_url {
        Ok(url) => if accepted {
            r == Ok::<PoolSettings, PoolError>(
                PoolSettings {
                    database_url: url,
                    max_connections: MAX_CONNECTIONS,
                    acquire_timeout_secs: ACQUIRE_TIMEOUT_SECS,
                },
            )
        } else {
            r == Err::<PoolSettings, PoolError>(PoolError::ConfigError(VarFault::Invalid))
        },
        Err(fault) => r == Err::<PoolSettings, PoolError>(PoolError::ConfigError(fault)),
    }
}

/// The settings of the pool for a connection string on which the parser's
/// verdict is `accepted`, or the configuration fault that forbids serving.
/// The verdict is not read where no string is configured.
pub fn pool_settings(database_url: Result<String, VarFault>, accepted: bool) -> (r: Result<
    PoolSettings,
    PoolError,
>)
    ensures
        settings_for(database_url, accepted, r),
{
    match database_url {
        Ok(url) => if accepted {
            Ok(
                PoolSettings {
                    database_url: url,
                    max_connections: MAX_CONNECTIONS,
                    acquire_timeout_secs: ACQUIRE_TIMEOUT_SECS,
                },
            )
        } else {
            Err(PoolError::ConfigError(VarFault::Invalid))
        },
        Err(fault) => Err(PoolError::ConfigError(fault)),
    }
}

/// The settings of the pool for the configured connection string. A string
/// that is missing, unreadable or refused by the store driver's parser is a
/// configuration fault, and then there are no settings to connect with.
pub fn create_pool(database_url: Result<String, VarFault>) -> (r: Result<PoolSettings, PoolError>)
    ensures
        match database_url {
            Ok(url) => settings_for(database_url, connection_string_accepted(url@), r),
            Err(fault) => r == Err::<PoolSettings, PoolError>(PoolError::ConfigError(fault)),
        },
{
    let accepted = match &database_url {
        Ok(url) => connection_string_parses(url.as_str()),
        Err(_) => false,
    };
    pool_settings(database_url, accepted)
}

/// Joins the settings with the outcome of connecting with them: there is a
/// pool exactly when the connect succeeded, and a failed connect is handed on
/// as it came.
pub fn finish_connect(settings: PoolSettings, connected: Result<(), sqlx::Error>) -> (r: Result<
    PoolSettings,
    PoolError,
>)
    ensures
        match connected {
            Ok(_) => r == Ok::<PoolSettings, PoolError>(settings),
            Err(e) => r == Err::<PoolSettings, PoolError>(PoolError::DatabaseError(e)),
        },
{
    match connected {
        Ok(_) => Ok(settings),
        Err(e) => Err(PoolError::DatabaseError(e)),
    }
}

/// What startup comes to, from the configured connection string and the
/// outcome of connecting: serving may begin exactly when the result is `Ok`,
/// which is when the string was taken and the connect succeeded. `connected`
/// is not read where the configuration was refused.
pub fn startup(configured: Result<PoolSettings, PoolError>, connected: Result<(), sqlx::Error>) -> (r:
    Result<PoolSettings, PoolError>)
    ensures
        match configured {
            Ok(settings) => match connected {
                Ok(_) => r == Ok::<PoolSettings, PoolError>(settings),
                Err(e) => r == Err::<PoolSettings, PoolError>(PoolError::DatabaseError(e)),
            },
            Err(fault) => r == Err::<PoolSettings, PoolError>(fault),
        },
        r is Ok <==> configured is Ok && connected is Ok,
{
    match configured {
        Ok(settings) => finish_connect(settings, connected),
        Err(fault) => Err(fault),
    }
}

} // verus!
