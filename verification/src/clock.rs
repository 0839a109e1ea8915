//! The source of the current time.
//!
//! The commands read the time through the `Clock` trait, so that a caller can
//! put a clock of its own in the place of the system's.

use core::time::Duration;
use std::time::UNIX_EPOCH;
use vstd::prelude::*;

verus! {

/// A source of the current Unix time in whole seconds.
pub trait Clock {
    /// Whether this clock may give `reading`, where `None` stands for a clock
    /// that is not available.
    spec fn may_read(&self, reading: Option<u64>) -> bool;

    /// Reads the clock.
    fn unix_seconds(&self) -> (reading: Option<u64>)
        ensures
            self.may_read(reading),
    ;
}

/// A clock that always shows the same instant.
#[derive(Clone, Copy, Debug, PartialEq, Eq, Structural)]
pub struct FixedClock {
    /// The instant shown, in seconds since the Unix epoch.
    pub now: u64,
}

impl Clock for FixedClock {
    open spec fn may_read(&self, reading: Option<u64>) -> bool {
        reading == Some(self.now)
    }

    fn unix_seconds(&self) -> (reading: Option<u64>) {
        Some(self.now)
    }
}

/// The clock of the system. Nothing is known of what it will show.
#[derive(Clone, Copy, Debug, PartialEq, Eq, Structural)]
pub struct SystemClock;

impl Clock for SystemClock {
    open spec fn may_read(&self, reading: Option<u64>) -> bool {
        true
    }

    fn unix_seconds(&self) -> (reading: Option<u64>) {
        match elapsed_since_epoch() {
            Some(elapsed) => Some(elapsed.as_secs()),
            None => None,
        }
    }
}

/// Reads the time that has passed since the Unix epoch, or `None` where the
/// system's clock stands before the epoch.
///
/// Trusted: the body calls `std::time::SystemTime::elapsed` on `UNIX_EPOCH`.
/// The result depends on the moment of the call, so the contract claims
/// nothing of it.
#[verifier::external_body]
fn elapsed_since_epoch() -> (elapsed: Option<Duration>) {
    match UNIX_EPOCH.elapsed() {
        Ok(elapsed) => Some(elapsed),
        Err(_) => None,
    }
}

/// Trusted: `core::time::Duration::as_secs` gives the whole seconds of a
/// duration. A duration is opaque here, so the contract claims nothing of the
/// number.
pub assume_specification[ Duration::as_secs ](duration: &Duration) -> (seconds: u64);

} // verus!
