//! Retry policy for migration-scope calls.
//!
//! Migration calls (`setup_migration`, `commit_migration`,
//! `pull_shard_chunk`, `forward`) are wrapped in an unbounded retry loop
//! with exponential backoff. A fresh group client is built per iteration
//! so cached leader hints and replica orderings reset cleanly. The loop
//! itself sleeps and performs the calls outside this crate; the policy —
//! which errors end the loop and how long to back off — is decided here.

use vstd::prelude::*;
use crate::error::Error;

verus! {

/// The first backoff slept after a failed migration call, in
/// milliseconds.
pub const INITIAL_RETRY_BACKOFF_MS: u64 = 10;

/// The cap every later backoff saturates at, in milliseconds.
pub const MAX_RETRY_BACKOFF_MS: u64 = 1000;

/// The backoff that follows `backoff_ms`: doubled, saturating at the
/// cap.
pub open spec fn spec_next_backoff(backoff_ms: u64) -> u64 {
    if backoff_ms > MAX_RETRY_BACKOFF_MS / 2 {
        MAX_RETRY_BACKOFF_MS
    } else {
        (backoff_ms * 2) as u64
    }
}

/// The caller-visible retry policy of one migration call: an optional
/// overall budget and the exponential backoff position.
pub struct RetryState {
    /// The overall budget, in milliseconds, when the caller set one.
    pub timeout_ms: Option<u64>,
    /// The backoff to sleep before the next retry.
    pub backoff_ms: u64,
}

impl RetryState {
    /// A fresh policy: the first retry backs off by the initial
    /// interval.
    pub fn new(timeout_ms: Option<u64>) -> (r: RetryState)
        ensures
            r.timeout_ms == timeout_ms,
            r.backoff_ms == INITIAL_RETRY_BACKOFF_MS,
    {
        RetryState { timeout_ms, backoff_ms: INITIAL_RETRY_BACKOFF_MS }
    }

    /// Yields the backoff to sleep now and doubles it, capped, for the
    /// retry after.
    pub fn next_backoff(&mut self) -> (r: u64)
        requires
            old(self).backoff_ms <= MAX_RETRY_BACKOFF_MS,
        ensures
            r == old(self).backoff_ms,
            final(self).backoff_ms == spec_next_backoff(old(self).backoff_ms),
            final(self).backoff_ms <= MAX_RETRY_BACKOFF_MS,
            final(self).timeout_ms == old(self).timeout_ms,
    {
        let r = self.backoff_ms;
        if self.backoff_ms > MAX_RETRY_BACKOFF_MS / 2 {
            self.backoff_ms = MAX_RETRY_BACKOFF_MS;
        } else {
            self.backoff_ms = self.backoff_ms * 2;
        }
        r
    }
}

/// While setting up a migration, `EpochNotMatch` means the migration was
/// superseded and is surfaced at once; every other error is retried
/// under the backoff budget. The other migration entry points retry
/// every error.
pub fn setup_migration_surfaces(err: &Error) -> (r: bool)
    ensures
        r == (err is EpochNotMatch),
{
    matches!(err, Error::EpochNotMatch(_))
}

} // verus!
