//! Service configuration, built from the values of its environment variables.

use vstd::prelude::*;

use crate::text::{
    eq_ignore_ascii_case, parse_i64, parse_u64, spec_eq_ignore_ascii_case, spec_parse_i64,
    spec_parse_u64, str_eq,
};

verus! {

/// Minutes before a receipt becomes eligible for archiving, when unset.
pub const DEFAULT_ARCHIVE_AFTER_MINUTES: i64 = 5;

/// Seconds within which a node's last announcement counts as online, when unset.
pub const DEFAULT_NODE_ONLINE_TTL_SECS: u64 = 90;

#[derive(Debug, PartialEq, Eq)]
pub struct Config {
    pub database_url: String,
    pub bind: String,
    pub walrus_publisher_url: String,
    /// How many minutes before a receipt is eligible for Walrus archiving.
    pub archive_after_minutes: i64,
    /// Base URL of the coordinator, used to fetch the live peer registry
    /// (`GET /v1/nodes`) for node status/details.
    pub coordinator_url: String,
    /// Accept the coordinator's self-signed TLS cert (it presents an
    /// attested, not CA-issued, certificate).
    pub insecure_coordinator: bool,
    /// A node counts as "online" if its last_seen is within this many
    /// seconds. The node re-announces every 30s; default 90s (3x).
    pub node_online_ttl_secs: u64,
}

/// The configuration variables as the environment holds them: `None` where a
/// variable is unset (or not valid Unicode).
#[derive(Debug, PartialEq, Eq)]
pub struct ConfigVars {
    /// `DATABASE_URL`
    pub database_url: Option<String>,
    /// `INDEXER_BIND`
    pub bind: Option<String>,
    /// `WALRUS_PUBLISHER_URL`
    pub walrus_publisher_url: Option<String>,
    /// `ARCHIVE_AFTER_MINUTES`
    pub archive_after_minutes: Option<String>,
    /// `COORDINATOR_URL`
    pub coordinator_url: Option<String>,
    /// `INSECURE_COORDINATOR`
    pub insecure_coordinator: Option<String>,
    /// `NODE_ONLINE_TTL_SECS`
    pub node_online_ttl_secs: Option<String>,
}

#[derive(Debug, Clone, Copy, PartialEq, Eq, Structural)]
pub enum ConfigError {
    /// `DATABASE_URL` is unset or empty.
    MissingDatabaseUrl,
}

impl ConfigError {
    /// The human-readable message for this error.
    pub fn message(&self) -> (r: String)
        ensures
            r@ == "DATABASE_URL is required"@,
    {
        String::from_str("DATABASE_URL is required")
    }
}

pub open spec fn spec_default_bind() -> Seq<char> {
    "0.0.0.0:3100"@
}

pub open spec fn spec_default_walrus_publisher_url() -> Seq<char> {
    "https://publisher.walrus.site"@
}

pub open spec fn spec_default_coordinator_url() -> Seq<char> {
    "https://127.0.0.1:4000"@
}

/// The variable's text, or `default` where it is unset.
pub open spec fn spec_text_or(v: Option<String>, default: Seq<char>) -> Seq<char> {
    match v {
        Some(s) => s@,
        None => default,
    }
}

/// The variable parsed as an `i64`, or `default` where it is unset or does not parse.
pub open spec fn spec_i64_or(v: Option<String>, default: i64) -> i64 {
    match v {
        Some(s) => match spec_parse_i64(s@) {
            Some(x) => x,
            None => default,
        },
        None => default,
    }
}

/// The variable parsed as a `u64`, or `default` where it is unset or does not parse.
pub open spec fn spec_u64_or(v: Option<String>, default: u64) -> u64 {
    match v {
        Some(s) => match spec_parse_u64(s@) {
            Some(x) => x,
            None => default,
        },
        None => default,
    }
}

/// A flag is set by `1` or by `true` in any ASCII case; unset means `false`.
pub open spec fn spec_flag(v: Option<String>) -> bool {
    match v {
        Some(s) => s@ == "1"@ || spec_eq_ignore_ascii_case(s@, "true"@),
        None => false,
    }
}

/// `DATABASE_URL` is given and not empty.
pub open spec fn spec_has_database_url(vars: ConfigVars) -> bool {
    vars.database_url matches Some(u) && u@.len() > 0
}

fn text_or(v: Option<String>, default: &str) -> (r: String)
    ensures
        r@ == spec_text_or(v, default@),
{
    match v {
        Some(s) => s,
        None => String::from_str(default),
    }
}

fn i64_or(v: &Option<String>, default: i64) -> (r: i64)
    ensures
        r == spec_i64_or(*v, default),
{
    match v {
        Some(s) => match parse_i64(s.as_str()) {
            Some(x) => x,
            None => default,
        },
        None => default,
    }
}

fn u64_or(v: &Option<String>, default: u64) -> (r: u64)
    ensures
        r == spec_u64_or(*v, default),
{
    match v {
        Some(s) => match parse_u64(s.as_str()) {
            Some(x) => x,
            None => default,
        },
        None => default,
    }
}

fn flag(v: &Option<String>) -> (r: bool)
    ensures
        r == spec_flag(*v),
{
    match v {
        Some(s) => str_eq(s.as_str(), "1") || eq_ignore_ascii_case(s.as_str(), "true"),
        None => false,
    }
}

/// `ARCHIVE_AFTER_MINUTES` read as the archive job reads it: a decimal `i64`,
/// else 5.
pub fn archive_after_minutes_from(v: &Option<String>) -> (r: i64)
    ensures
        r == spec_i64_or(*v, DEFAULT_ARCHIVE_AFTER_MINUTES),
{
    i64_or(v, DEFAULT_ARCHIVE_AFTER_MINUTES)
}

impl Config {
    /// Builds the configuration from the variables' values. `DATABASE_URL` is
    /// required; every other variable has a default, and a numeric variable
    /// that does not parse falls back to its default.
    pub fn from_env(vars: ConfigVars) -> (r: Result<Config, ConfigError>)
        ensures
            r is Err <==> !spec_has_database_url(vars),
            r matches Err(e) ==> e == ConfigError::MissingDatabaseUrl,
            r matches Ok(c) ==> {
                &&& c.database_url@ == vars.database_url->0@
                &&& c.bind@ == spec_text_or(vars.bind, spec_default_bind())
                &&& c.walrus_publisher_url@ == spec_text_or(
                    vars.walrus_publisher_url,
                    spec_default_walrus_publisher_url(),
                )
                &&& c.archive_after_minutes == spec_i64_or(
                    vars.archive_after_minutes,
                    DEFAULT_ARCHIVE_AFTER_MINUTES,
                )
                &&& c.coordinator_url@ == spec_text_or(
                    vars.coordinator_url,
                    spec_default_coordinator_url(),
                )
                &&& c.insecure_coordinator == spec_flag(vars.insecure_coordinator)
                &&& c.node_online_ttl_secs == spec_u64_or(
                    vars.node_online_ttl_secs,
                    DEFAULT_NODE_ONLINE_TTL_SECS,
                )
            },
    {
        let ConfigVars {
            database_url,
            bind,
            walrus_publisher_url,
            archive_after_minutes,
            coordinator_url,
            insecure_coordinator,
            node_online_ttl_secs,
        } = vars;
        let database_url = match database_url {
            Some(u) => u,
            None => {
                return Err(ConfigError::MissingDatabaseUrl);
            },
        };
        if database_url.as_str().unicode_len() == 0 {
            return Err(ConfigError::MissingDatabaseUrl);
        }
        let archive_after_minutes = archive_after_minutes_from(&archive_after_minutes);
        let insecure_coordinator = flag(&insecure_coordinator);
        let node_online_ttl_secs = u64_or(&node_online_ttl_secs, DEFAULT_NODE_ONLINE_TTL_SECS);
        Ok(Config {
            database_url,
            bind: text_or(bind, "0.0.0.0:3100"),
            walrus_publisher_url: text_or(walrus_publisher_url, "https://publisher.walrus.site"),
            archive_after_minutes,
            coordinator_url: text_or(coordinator_url, "https://127.0.0.1:4000"),
            insecure_coordinator,
            node_online_ttl_secs,
        })
    }
}

} // verus!
