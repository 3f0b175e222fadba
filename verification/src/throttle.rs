//! The process-wide bandwidth throttle: one token bucket shared by every
//! concurrent transfer task, behind a single lock so that each
//! refill-check-decrement sequence is one atomic critical section.
//!
//! `try_consume` is one polling step of the token-bucket algorithm. A transfer
//! task that moves a chunk of bytes calls it until it grants, pausing briefly
//! between polls; the pause itself is the caller's concern (an asynchronous
//! caller suspends instead of blocking a worker thread), so the step, not the
//! loop, is what this type exposes.

use vstd::prelude::*;
use vstd::rwlock::RwLock;
use vstd::rwlock::RwLockPredicate;

use crate::bucket::Bucket;
use crate::clock::instant_now;
use crate::clock::millis_since;

verus! {

/// Predicate held by the throttle's lock: every bucket a task can observe or
/// store is well formed, so no balance computation can overflow.
pub struct BucketInv {}

impl RwLockPredicate<Bucket> for BucketInv {
    open spec fn inv(self, b: Bucket) -> bool {
        b.wf()
    }
}

/// Runtime-reconfigurable rate limiter for the whole process.
///
/// One instance is created at startup and shared by reference with every
/// transfer task and with the settings handlers; none of them owns it. All
/// three state fields live in one [`Bucket`] behind one lock, so concurrent
/// callers never see a torn state.
pub struct Throttle {
    start: std::time::Instant,
    state: RwLock<Bucket, BucketInv>,
}

impl Throttle {
    /// Creates the throttle with an initial rate in bytes per second, `0`
    /// meaning unlimited. The bucket starts full: one second of budget.
    pub fn new(rate: u64) -> Throttle {
        let start = instant_now();
        let now_ms = millis_since(&start);
        let bucket = Bucket::new(rate, now_ms);
        Throttle { start, state: RwLock::new(bucket, Ghost(BucketInv {})) }
    }

    /// Reads the configured rate without entering the write critical section.
    pub fn get_rate(&self) -> u64 {
        let handle = self.state.acquire_read();
        let rate = handle.borrow().get_rate();
        handle.release_read();
        rate
    }

    /// Atomically replaces the configured rate; `0` switches to unlimited.
    /// In-flight waiters observe the new rate on their next polling step.
    pub fn set_rate(&self, rate: u64) {
        let (mut bucket, handle) = self.state.acquire_write();
        bucket.set_rate(rate);
        handle.release_write(bucket);
    }

    /// One polling step of `consume`: within a single critical section the
    /// bucket is refilled from the clock and the request for `bytes` bytes is
    /// charged if the balance covers it. Returns whether it was granted.
    ///
    /// A caller streams a chunk only after a step granted its length; until
    /// then it retries after a short pause. A step cannot fail under an
    /// unlimited rate, and a request within the burst cap keeps failing only
    /// until enough time has earned its budget.
    pub fn try_consume(&self, bytes: usize) -> bool {
        let now_ms = millis_since(&self.start);
        let (mut bucket, handle) = self.state.acquire_write();
        let granted = bucket.try_consume(bytes, now_ms);
        handle.release_write(bucket);
        granted
    }
}

} // verus!
