//! Configuration for connection-pool construction.
//!
//! A `PoolConfig` is plain data describing the size, lifetime and validation
//! policy of a pool. Timeouts are carried as whole milliseconds; the trusted
//! layer converts them to the client crates' duration type at the last moment.

use vstd::prelude::*;

verus! {

/// Default number of connections a pool may hold.
pub const DEFAULT_MAX_SIZE: u32 = 10;

/// Default idle timeout: five minutes, in milliseconds.
pub const DEFAULT_IDLE_TIMEOUT_MS: u64 = 300_000;

/// Default maximum connection lifetime: thirty minutes, in milliseconds.
pub const DEFAULT_MAX_LIFETIME_MS: u64 = 1_800_000;

/// Default checkout timeout: thirty seconds, in milliseconds.
pub const DEFAULT_CONNECTION_TIMEOUT_MS: u64 = 30_000;

/// Size, lifetime and validation policy for a connection pool.
///
/// `idle_timeout_ms` and `max_lifetime_ms` are optional: `None` means no
/// such limit — idle connections are kept indefinitely, lifetimes are
/// unbounded.
#[derive(Debug, Clone)]
pub struct PoolConfig {
    pub max_size: u32,
    pub idle_timeout_ms: Option<u64>,
    pub max_lifetime_ms: Option<u64>,
    pub connection_timeout_ms: u64,
    pub test_on_check_out: bool,
}

impl PoolConfig {
    /// The defaults: 10 connections, 5 min idle timeout, 30 min lifetime,
    /// 30 s checkout timeout, validation on checkout enabled.
    pub open spec fn spec_default() -> PoolConfig {
        PoolConfig {
            max_size: DEFAULT_MAX_SIZE,
            idle_timeout_ms: Some(DEFAULT_IDLE_TIMEOUT_MS),
            max_lifetime_ms: Some(DEFAULT_MAX_LIFETIME_MS),
            connection_timeout_ms: DEFAULT_CONNECTION_TIMEOUT_MS,
            test_on_check_out: true,
        }
    }
}

impl Default for PoolConfig {
    fn default() -> (c: Self)
        ensures
            c == PoolConfig::spec_default(),
    {
        PoolConfig {
            max_size: DEFAULT_MAX_SIZE,
            idle_timeout_ms: Some(DEFAULT_IDLE_TIMEOUT_MS),
            max_lifetime_ms: Some(DEFAULT_MAX_LIFETIME_MS),
            connection_timeout_ms: DEFAULT_CONNECTION_TIMEOUT_MS,
            test_on_check_out: true,
        }
    }
}

/// The settings actually handed to the pool builder. `None` for a limit
/// means the limit is off: idle connections are never reaped, lifetimes are
/// unbounded.
#[derive(Debug, Clone)]
pub struct BuilderSettings {
    pub max_size: u32,
    pub idle_timeout_ms: Option<u64>,
    pub max_lifetime_ms: Option<u64>,
    pub connection_timeout_ms: u64,
    pub test_on_check_out: bool,
}

/// What `configure_builder` resolves a configuration to: every field of the
/// policy is applied as given, and an unset limit turns the limit off.
pub open spec fn spec_settings_of(config: PoolConfig) -> BuilderSettings {
    BuilderSettings {
        max_size: config.max_size,
        idle_timeout_ms: config.idle_timeout_ms,
        max_lifetime_ms: config.max_lifetime_ms,
        connection_timeout_ms: config.connection_timeout_ms,
        test_on_check_out: config.test_on_check_out,
    }
}

/// Resolves a `PoolConfig` to the concrete builder settings. The whole
/// policy is applied as configured — an unset idle timeout or lifetime
/// disables that limit rather than leaving a builder default in force.
pub fn configure_builder(config: &PoolConfig) -> (s: BuilderSettings)
    ensures
        s == spec_settings_of(*config),
{
    BuilderSettings {
        max_size: config.max_size,
        idle_timeout_ms: config.idle_timeout_ms,
        max_lifetime_ms: config.max_lifetime_ms,
        connection_timeout_ms: config.connection_timeout_ms,
        test_on_check_out: config.test_on_check_out,
    }
}

} // verus!
