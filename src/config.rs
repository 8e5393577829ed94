//! Runtime settings of the service.

use vstd::prelude::*;
use crate::text::{lower_of, same_text, to_lowercase};

verus! {

/// Where the HTTP server listens.
pub struct ApplicationSettings {
    pub port: u16,
    pub host: String,
    pub base_url: String,
}

/// The backing store of idempotency records.
#[derive(Debug, Clone, Copy, PartialEq, Eq, Structural)]
pub enum IdempotencyEngine {
    /// Idempotency is off: every request is processed.
    Disabled,
    /// Records live in a key/value cache with expiry.
    Redis,
    /// Records live in relational rows; not wired up.
    Postgres,
}

/// How idempotency is configured.
pub struct IdempotencySettings {
    pub engine: IdempotencyEngine,
    /// Seconds a reservation and its saved response stay replayable.
    pub ttl_seconds: u64,
    /// Namespace of the cache keys.
    pub redis_key_prefix: String,
}

impl IdempotencySettings {
    /// Settings whose time-to-live is positive; `None` for a time-to-live of
    /// zero, which would make every reservation expire at once.
    pub fn new(engine: IdempotencyEngine, ttl_seconds: u64, redis_key_prefix: String) -> (r: Option<
        IdempotencySettings,
    >)
        ensures
            r is Some <==> ttl_seconds > 0,
            r matches Some(s) ==> s.engine == engine && s.ttl_seconds == ttl_seconds
                && s.redis_key_prefix@ == redis_key_prefix@,
    {
        if ttl_seconds == 0 {
            None
        } else {
            Some(IdempotencySettings { engine, ttl_seconds, redis_key_prefix })
        }
    }
}

/// The runtime environment of the application.
#[derive(Debug, Clone, Copy, PartialEq, Eq, Structural)]
pub enum Environment {
    Local,
    Production,
}

/// Seconds a reservation lives when the settings do not say.
pub fn default_idempotency_settings_ttl_seconds() -> (r: u64)
    ensures
        r == 600,
{
    600
}

/// Cache key namespace when the settings do not say.
pub fn default_idempotency_settings_redis_key_prefix() -> (r: String)
    ensures
        r@ == "idem"@,
{
    "idem".to_owned()
}

/// The message for an environment name that is not recognised.
pub open spec fn unknown_environment_message(name: Seq<char>) -> Seq<char> {
    name + " is not supported environment.Use either `local` or `production`."@
}

/// The message for an engine name that is not recognised.
pub open spec fn unknown_engine_message(name: Seq<char>) -> Seq<char> {
    "'"@ + name
        + "' is not a supported Idempotency engine.Use 'redis', 'postgres' or 'none' to disable IdempotencyWarning: postgres engine is currently untested"@
}

impl Environment {
    /// The environment's name, as configuration files are named.
    pub fn as_str(&self) -> (r: &'static str)
        ensures
            *self == Environment::Local ==> r@ == "local"@,
            *self == Environment::Production ==> r@ == "production"@,
    {
        match self {
            Environment::Local => "local",
            Environment::Production => "production",
        }
    }

    /// Reads an environment name, ignoring case.
    pub fn try_from(s: String) -> (r: Result<Environment, String>)
        ensures
            lower_of(s@) == "local"@ ==> r == Ok::<Environment, String>(Environment::Local),
            lower_of(s@) == "production"@ ==> r == Ok::<Environment, String>(
                Environment::Production,
            ),
            lower_of(s@) != "local"@ && lower_of(s@) != "production"@ ==> (r matches Err(m)
                && m@ == unknown_environment_message(lower_of(s@))),
    {
        proof {
            reveal_strlit("local");
            reveal_strlit("production");
            assert("local"@.len() != "production"@.len());
        }
        let lowered = to_lowercase(s.as_str());
        if same_text(lowered.as_str(), "local") {
            Ok(Environment::Local)
        } else if same_text(lowered.as_str(), "production") {
            Ok(Environment::Production)
        } else {
            let mut m = lowered;
            m.append(" is not supported environment.Use either `local` or `production`.");
            Err(m)
        }
    }
}

impl IdempotencyEngine {
    /// The engine's name in configuration.
    pub fn as_str(&self) -> (r: &'static str)
        ensures
            *self == IdempotencyEngine::Disabled ==> r@ == "none"@,
            *self == IdempotencyEngine::Redis ==> r@ == "redis"@,
            *self == IdempotencyEngine::Postgres ==> r@ == "postgres"@,
    {
        match self {
            IdempotencyEngine::Disabled => "none",
            IdempotencyEngine::Redis => "redis",
            IdempotencyEngine::Postgres => "postgres",
        }
    }

    /// Reads an engine name, ignoring case.
    pub fn try_from(s: String) -> (r: Result<IdempotencyEngine, String>)
        ensures
            lower_of(s@) == "none"@ ==> r == Ok::<IdempotencyEngine, String>(
                IdempotencyEngine::Disabled,
            ),
            lower_of(s@) == "redis"@ ==> r == Ok::<IdempotencyEngine, String>(
                IdempotencyEngine::Redis,
            ),
            lower_of(s@) == "postgres"@ ==> r == Ok::<IdempotencyEngine, String>(
                IdempotencyEngine::Postgres,
            ),
            lower_of(s@) != "none"@ && lower_of(s@) != "redis"@ && lower_of(s@) != "postgres"@
                ==> (r matches Err(m) && m@ == unknown_engine_message(lower_of(s@))),
    {
        proof {
            reveal_strlit("none");
            reveal_strlit("redis");
            reveal_strlit("postgres");
            assert("none"@.len() != "redis"@.len());
            assert("none"@.len() != "postgres"@.len());
            assert("redis"@.len() != "postgres"@.len());
        }
        let lowered = to_lowercase(s.as_str());
        if same_text(lowered.as_str(), "none") {
            Ok(IdempotencyEngine::Disabled)
        } else if same_text(lowered.as_str(), "redis") {
            Ok(IdempotencyEngine::Redis)
        } else if same_text(lowered.as_str(), "postgres") {
            Ok(IdempotencyEngine::Postgres)
        } else {
            let mut m = "'".to_owned();
            m.append(lowered.as_str());
            m.append(
                "' is not a supported Idempotency engine.Use 'redis', 'postgres' or 'none' to disable IdempotencyWarning: postgres engine is currently untested",
            );
            Err(m)
        }
    }
}

} // verus!
