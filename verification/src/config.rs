//! Service settings, read from looked-up environment values with the
//! defaults each service falls back on.

use vstd::prelude::*;
use crate::numbers::{decimal_i64, parse_i64};
use crate::text::owned;

verus! {

/// The looked-up value, or the default where the variable is unset.
pub open spec fn value_or(v: Option<String>, default: Seq<char>) -> Seq<char> {
    match v {
        Some(s) => s@,
        None => default,
    }
}

/// A number of hours from a looked-up value: its decimal reading, or the
/// default where the variable is unset or does not read as an `i64`.
pub open spec fn hours_or(v: Option<String>, default: i64) -> i64 {
    match v {
        Some(s) => match decimal_i64(s@) {
            Some(h) => h,
            None => default,
        },
        None => default,
    }
}

/// The looked-up value, or a fresh copy of the default.
fn or_default(v: Option<String>, default: &str) -> (r: String)
    ensures
        r@ == value_or(v, default@),
{
    match v {
        Some(s) => s,
        None => owned(default),
    }
}

/// Where the relational database lives.
pub struct DatabaseConfig {
    pub url: String,
}

/// How tokens are signed and how long they last.
pub struct JwtConfig {
    pub secret: String,
    pub expiry_hours: i64,
    pub refresh_expiry_hours: i64,
}

/// Where the message broker lives.
pub struct NatsConfig {
    pub url: String,
}

/// Where the document store lives, and which database to use.
pub struct MongoConfig {
    pub url: String,
    pub database: String,
}

/// Where the cache lives.
pub struct RedisConfig {
    pub url: String,
}

impl DatabaseConfig {
    /// From `DATABASE_URL`, which must be set.
    pub fn from_env(database_url: String) -> (c: Self)
        ensures
            c.url@ == database_url@,
    {
        DatabaseConfig { url: database_url }
    }
}

impl JwtConfig {
    /// From `JWT_SECRET` (which must be set), `JWT_EXPIRY_HOURS` (24 by
    /// default) and `JWT_REFRESH_EXPIRY_HOURS` (168 by default).
    pub fn from_env(secret: String, expiry_hours: Option<String>, refresh_expiry_hours: Option<String>) -> (c: Self)
        ensures
            c.secret@ == secret@,
            c.expiry_hours == hours_or(expiry_hours, 24),
            c.refresh_expiry_hours == hours_or(refresh_expiry_hours, 168),
    {
        let expiry = match expiry_hours {
            Some(s) => match parse_i64(s.as_str()) {
                Some(h) => h,
                None => 24,
            },
            None => 24,
        };
        let refresh = match refresh_expiry_hours {
            Some(s) => match parse_i64(s.as_str()) {
                Some(h) => h,
                None => 168,
            },
            None => 168,
        };
        JwtConfig { secret, expiry_hours: expiry, refresh_expiry_hours: refresh }
    }
}

impl NatsConfig {
    /// From `NATS_URL`, by default `nats://localhost:4222`.
    pub fn from_env(nats_url: Option<String>) -> (c: Self)
        ensures
            c.url@ == value_or(nats_url, "nats://localhost:4222"@),
    {
        NatsConfig { url: or_default(nats_url, "nats://localhost:4222") }
    }
}

impl MongoConfig {
    /// From `MONGO_URL`, by default `mongodb://localhost:27017`, and
    /// `MONGO_DATABASE`, by default `notifications`.
    pub fn from_env(mongo_url: Option<String>, mongo_database: Option<String>) -> (c: Self)
        ensures
            c.url@ == value_or(mongo_url, "mongodb://localhost:27017"@),
            c.database@ == value_or(mongo_database, "notifications"@),
    {
        MongoConfig {
            url: or_default(mongo_url, "mongodb://localhost:27017"),
            database: or_default(mongo_database, "notifications"),
        }
    }
}

impl RedisConfig {
    /// From `REDIS_URL`, by default `redis://localhost:6379`.
    pub fn from_env(redis_url: Option<String>) -> (c: Self)
        ensures
            c.url@ == value_or(redis_url, "redis://localhost:6379"@),
    {
        RedisConfig { url: or_default(redis_url, "redis://localhost:6379") }
    }
}

} // verus!
