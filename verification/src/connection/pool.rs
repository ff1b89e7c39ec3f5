//! The pool's bound on sessions that are checked out at the same time.

use std::sync::Arc;
use vstd::prelude::*;
use vstd::string::*;

use crate::error::Error;
use crate::text::{decimal, u64_to_string};

verus! {

/// How a pool is to behave. Durations are in whole seconds.
#[derive(Debug, Clone, Copy, PartialEq, Eq, Structural)]
pub struct PoolConfig {
    /// The most sessions that may be checked out at the same time.
    pub max_connections: usize,
    /// The sessions that are kept open while nothing is asked.
    pub min_connections: usize,
    /// How long an acquisition may wait for a session, in seconds.
    pub connection_timeout: u64,
    /// After how many idle seconds a session is closed, if ever.
    pub idle_timeout: Option<u64>,
}

impl Default for PoolConfig {
    /// Ten sessions at most, two kept open, half a minute to wait, ten
    /// minutes of idleness.
    fn default() -> (c: Self)
        ensures
            c == (PoolConfig {
                max_connections: 10,
                min_connections: 2,
                connection_timeout: 30,
                idle_timeout: Some(600u64),
            }),
    {
        PoolConfig {
            max_connections: 10,
            min_connections: 2,
            connection_timeout: 30,
            idle_timeout: Some(600),
        }
    }
}

/// Makes `tokio::sync::Semaphore` known as a type. Nothing is claimed of
/// what a semaphore holds.
#[verifier::external_type_specification]
#[verifier::external_body]
pub struct ExSemaphore(tokio::sync::Semaphore);

/// Makes `tokio::sync::OwnedSemaphorePermit` known as a type. Nothing is
/// claimed of what a permit holds.
#[verifier::external_type_specification]
#[verifier::external_body]
pub struct ExOwnedSemaphorePermit(tokio::sync::OwnedSemaphorePermit);

/// The number of permits that a semaphore was made with: a name for the
/// argument of `tokio::sync::Semaphore::new`, not for the permits that are
/// free at any moment.
pub uninterp spec fn permit_limit(semaphore: tokio::sync::Semaphore) -> nat;

/// The most permits that a semaphore can be made with.
pub open spec fn max_permits() -> nat {
    (usize::MAX / 8) as nat
}

/// Calls `tokio::sync::Semaphore::new`, which makes a semaphore that holds
/// `permits` permits, and panics where `permits` is above
/// `Semaphore::MAX_PERMITS`, an eighth of `usize::MAX`: the contract leaves
/// such a number out and names the number the semaphore was made with.
#[verifier::external_body]
fn new_semaphore(permits: usize) -> (semaphore: tokio::sync::Semaphore)
    requires
        permits <= max_permits(),
    ensures
        permit_limit(semaphore) == permits,
{
    tokio::sync::Semaphore::new(permits)
}

/// The detail of the failure of an acquisition that waited too long.
pub open spec fn timeout_detail(seconds: u64) -> Seq<char> {
    "Timed out waiting for a connection after "@ + decimal(seconds as nat) + " seconds"@
}

/// A pool: at most `max_connections` sessions are checked out at the same
/// time, one permit of the pool's semaphore for each.
pub struct Pool {
    semaphore: Arc<tokio::sync::Semaphore>,
    config: PoolConfig,
}

impl Pool {
    /// The configuration that the pool was made with.
    pub closed spec fn spec_config(&self) -> PoolConfig {
        self.config
    }

    /// The number of permits that the pool's semaphore was made with.
    pub closed spec fn spec_permits(&self) -> nat {
        permit_limit(*self.semaphore)
    }

    /// A pool with one permit for each session that `config` allows to be
    /// checked out at the same time.
    pub fn new(config: PoolConfig) -> (p: Self)
        requires
            config.max_connections <= max_permits(),
        ensures
            p.spec_config() == config,
            p.spec_permits() == config.max_connections,
    {
        let semaphore = Arc::new(new_semaphore(config.max_connections));
        Pool { semaphore, config }
    }

    /// A pool for `config`, unless `config` asks for more sessions than a
    /// pool can count.
    pub fn try_new(config: PoolConfig) -> (r: Result<Self, Error>)
        ensures
            match r {
                Ok(p) => {
                    &&& config.max_connections <= max_permits()
                    &&& p.spec_config() == config
                    &&& p.spec_permits() == config.max_connections
                },
                Err(e) => {
                    &&& config.max_connections > max_permits()
                    &&& e is ConfigError
                    &&& e.detail() == "Too many connections for a pool"@
                },
            },
    {
        if config.max_connections <= usize::MAX / 8 {
            Ok(Pool::new(config))
        } else {
            Err(Error::ConfigError(String::from_str("Too many connections for a pool")))
        }
    }

    pub fn config(&self) -> (c: &PoolConfig)
        ensures
            *c == self.spec_config(),
    {
        &self.config
    }

    /// The semaphore whose permits stand for the sessions that may be
    /// checked out: an acquisition waits for one of them.
    pub fn semaphore(&self) -> (s: Arc<tokio::sync::Semaphore>)
        ensures
            permit_limit(*s) == self.spec_permits(),
    {
        Arc::clone(&self.semaphore)
    }

    /// The failure of an acquisition whose semaphore gave no permit, with
    /// the semaphore's own words.
    pub fn acquire_failed(detail: String) -> (e: Error)
        ensures
            e is ConnectionError,
            e.detail() == detail@,
    {
        Error::ConnectionError(detail)
    }

    /// The failure of an acquisition that waited for the configured time
    /// and got no session.
    pub fn timed_out(&self) -> (e: Error)
        ensures
            e is ConnectionError,
            e.detail() == timeout_detail(self.spec_config().connection_timeout),
    {
        let mut detail = String::from_str("Timed out waiting for a connection after ");
        let seconds = u64_to_string(self.config.connection_timeout);
        detail.append(seconds.as_str());
        detail.append(" seconds");
        Error::ConnectionError(detail)
    }
}

/// A session that is checked out: it holds its permit until it is dropped,
/// and the permit then returns to the pool by itself.
pub struct PoolConnection {
    _permit: tokio::sync::OwnedSemaphorePermit,
}

impl PoolConnection {
    /// The permit that the connection holds.
    pub closed spec fn spec_permit(&self) -> tokio::sync::OwnedSemaphorePermit {
        self._permit
    }

    /// The connection that holds `permit`.
    pub fn new(permit: tokio::sync::OwnedSemaphorePermit) -> (c: Self)
        ensures
            c.spec_permit() == permit,
    {
        PoolConnection { _permit: permit }
    }
}

} // verus!
