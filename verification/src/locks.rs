//! Waiting for a lock.

use vstd::prelude::*;
use vstd::string::*;

verus! {

/// What came of an attempt to take a lock.
#[derive(Debug, Clone, Copy, PartialEq, Eq, Structural)]
pub enum LockAttempt {
    Acquired,
    Contended,
}

/// What follows an attempt.
#[derive(Debug)]
pub enum LockStep {
    /// The lock is held.
    Held,
    /// Try again after so many nanoseconds.
    Wait(u64),
    Failed(String),
}

/// How long an update of the integration waits for a lock, in seconds.
pub const INSTALL_LOCK_TIMEOUT_SECONDS: u64 = 5;

/// The longest pause between two attempts at a lock of the integration, in nanoseconds.
pub const INSTALL_LOCK_RETRY_NANOS: u64 = 25_000_000;

/// The pause between two attempts at the lock of a gateway's start, in nanoseconds.
pub const GATEWAY_LOCK_RETRY_NANOS: u64 = 50_000_000;

/// What holds the lock of the integration while another update is under way.
pub const INSTALL_CONTENTION: &'static str = "another Hermes integration update";

/// What holds the lock of the approvals while Hermes, or an update, writes them.
pub const ALLOWLIST_CONTENTION: &'static str = "a Hermes shell-hook approval update";

/// What follows an attempt at the lock of the integration at `path`: it is tried again until the time is up,
/// never after that. `remaining` is the time left, in nanoseconds; `contention` says what holds the lock.
pub fn after_install_attempt(
    attempt: Result<LockAttempt, String>,
    remaining: u64,
    path: &str,
    contention: &str,
) -> (r: LockStep)
    ensures
        match attempt {
            Ok(LockAttempt::Acquired) => r is Held,
            Ok(LockAttempt::Contended) => if remaining > 0 {
                r == LockStep::Wait(
                    if remaining < INSTALL_LOCK_RETRY_NANOS {
                        remaining
                    } else {
                        INSTALL_LOCK_RETRY_NANOS
                    },
                )
            } else {
                r is Failed && r->Failed_0@ == "timed out waiting for "@ + contention@ + " at "@ + path@
                    + "; wait for it to finish and retry"@
            },
            Err(error) => r is Failed && r->Failed_0@ == "failed to lock Hermes integration state "@ + path@ + ": "@
                + error@,
        },
{
    match attempt {
        Ok(LockAttempt::Acquired) => LockStep::Held,
        Ok(LockAttempt::Contended) => {
            if remaining > 0 {
                if remaining < INSTALL_LOCK_RETRY_NANOS {
                    LockStep::Wait(remaining)
                } else {
                    LockStep::Wait(INSTALL_LOCK_RETRY_NANOS)
                }
            } else {
                LockStep::Failed(
                    "timed out waiting for ".to_owned().concat(contention).concat(" at ").concat(path).concat(
                        "; wait for it to finish and retry",
                    ),
                )
            }
        },
        Err(error) => LockStep::Failed(
            "failed to lock Hermes integration state ".to_owned().concat(path).concat(": ").concat(error.as_str()),
        ),
    }
}

/// What follows an attempt at the lock of a gateway's start at `path`. `in_time` says whether time is left.
pub fn after_gateway_attempt(attempt: Result<LockAttempt, String>, in_time: bool, path: &str) -> (r: LockStep)
    ensures
        match attempt {
            Ok(LockAttempt::Acquired) => r is Held,
            Ok(LockAttempt::Contended) => if in_time {
                r == LockStep::Wait(GATEWAY_LOCK_RETRY_NANOS)
            } else {
                r is Failed && r->Failed_0@ == "timed out waiting for gateway startup lock "@ + path@
            },
            Err(error) => r is Failed && r->Failed_0@ == "failed to acquire gateway startup lock "@ + path@ + ": "@
                + error@,
        },
{
    match attempt {
        Ok(LockAttempt::Acquired) => LockStep::Held,
        Ok(LockAttempt::Contended) => {
            if in_time {
                LockStep::Wait(GATEWAY_LOCK_RETRY_NANOS)
            } else {
                LockStep::Failed("timed out waiting for gateway startup lock ".to_owned().concat(path))
            }
        },
        Err(error) => LockStep::Failed(
            "failed to acquire gateway startup lock ".to_owned().concat(path).concat(": ").concat(error.as_str()),
        ),
    }
}

} // verus!
