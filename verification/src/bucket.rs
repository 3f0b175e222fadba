//! Token-bucket state and its exact transition model.
//!
//! The budget is counted in thousandths of a byte so that refilling by
//! `elapsed_milliseconds * rate` stays exact over integers: one millisecond at
//! `rate` bytes per second earns `rate` thousandths of a byte.

use vstd::prelude::*;

verus! {

/// Balance units per byte of budget (and per second, in milliseconds).
pub const SCALE: u64 = 1000;

/// Largest balance any well-formed bucket holds: a full second of the largest
/// expressible rate, `u64::MAX * SCALE`.
pub const MAX_BALANCE: u128 = 18_446_744_073_709_551_615 * 1000;

/// State of the process-wide token bucket.
///
/// `rate` is the configured budget in bytes per second, where `0` means
/// unlimited; `balance` is the currently available budget in thousandths of a
/// byte; `last_ms` is the timestamp, in milliseconds, of the last refill.
#[derive(Clone, Copy, PartialEq, Eq, Structural, Debug)]
pub struct Bucket {
    pub rate: u64,
    pub balance: u128,
    pub last_ms: u64,
}

/// Burst cap for a rate: one second's worth of budget, in balance units.
pub open spec fn cap(rate: u64) -> int {
    rate * SCALE
}

/// Cost of a request for `bytes` bytes, in balance units.
pub open spec fn need(bytes: usize) -> int {
    bytes * SCALE
}

/// Milliseconds elapsed since the bucket's last refill, saturating at zero if
/// the clock reading runs behind the recorded timestamp.
pub open spec fn elapsed(b: Bucket, now_ms: u64) -> int {
    if now_ms >= b.last_ms {
        now_ms - b.last_ms
    } else {
        0
    }
}

/// Balance after a refill at `now_ms`: the old balance grown by elapsed time
/// times the rate, clamped at the burst cap.
pub open spec fn refilled(b: Bucket, now_ms: u64) -> int {
    let grown = b.balance + elapsed(b, now_ms) * b.rate;
    if grown <= cap(b.rate) {
        grown
    } else {
        cap(b.rate)
    }
}

/// The whole bucket after a refill at `now_ms`.
pub open spec fn refill_model(b: Bucket, now_ms: u64) -> Bucket {
    Bucket { rate: b.rate, balance: refilled(b, now_ms) as u128, last_ms: now_ms }
}

/// The bucket after the rate is reconfigured: only the rate changes; an
/// existing balance is not rescaled, it is clamped by the next refill.
pub open spec fn set_rate_model(b: Bucket, rate: u64) -> Bucket {
    Bucket { rate, balance: b.balance, last_ms: b.last_ms }
}

/// One polling step of `consume`: next bucket state, and whether the request
/// for `bytes` bytes was granted.
///
/// With the rate at zero the limiter is bypassed: the request is granted at
/// once and nothing is charged. Otherwise the bucket is refilled at `now_ms`
/// and the request is granted exactly when the refilled balance covers its
/// cost, in which case the cost is subtracted.
pub open spec fn step_model(b: Bucket, bytes: usize, now_ms: u64) -> (Bucket, bool) {
    if b.rate == 0 {
        (b, true)
    } else {
        let r = refill_model(b, now_ms);
        if r.balance >= need(bytes) {
            (Bucket { rate: r.rate, balance: (r.balance - need(bytes)) as u128, last_ms: r.last_ms }, true)
        } else {
            (r, false)
        }
    }
}

impl Bucket {
    /// A bucket is well formed when its balance fits under the largest burst
    /// cap; this keeps every refill computation free of overflow.
    pub open spec fn wf(self) -> bool {
        self.balance <= MAX_BALANCE
    }

    /// A fresh bucket starts full: one second of budget at the given rate.
    pub fn new(rate: u64, now_ms: u64) -> (b: Bucket)
        ensures
            b.wf(),
            b.rate == rate,
            b.balance == cap(rate),
            b.last_ms == now_ms,
    {
        proof {
            assert((rate as int) * (SCALE as int) <= MAX_BALANCE) by (nonlinear_arith)
                requires
                    rate <= u64::MAX,
            ;
        }
        Bucket { rate, balance: (rate as u128) * (SCALE as u128), last_ms: now_ms }
    }

    /// Replaces the configured rate; the balance and the refill timestamp are
    /// untouched, so a lower rate takes hold through the next refill's clamp.
    pub fn set_rate(&mut self, rate: u64)
        ensures
            *final(self) == set_rate_model(*old(self), rate),
            old(self).wf() ==> final(self).wf(),
    {
        self.rate = rate;
    }

    /// Reads the configured rate, with no side effect.
    pub fn get_rate(&self) -> (rate: u64)
        ensures
            rate == self.rate,
    {
        self.rate
    }

    /// One polling step of `consume`: refill from the clock reading, then
    /// charge the request if the balance covers it. Returns whether the
    /// request was granted; an ungranted request changes no budget beyond the
    /// refill itself.
    pub fn try_consume(&mut self, bytes: usize, now_ms: u64) -> (granted: bool)
        requires
            old(self).wf(),
        ensures
            final(self).wf(),
            (*final(self), granted) == step_model(*old(self), bytes, now_ms),
    {
        if self.rate == 0 {
            return true;
        }
        let elapsed_ms: u64 = if now_ms >= self.last_ms {
            now_ms - self.last_ms
        } else {
            0
        };
        proof {
            assert((self.rate as int) * (SCALE as int) <= MAX_BALANCE) by (nonlinear_arith)
                requires
                    self.rate <= u64::MAX,
            ;
        }
        let cap_units: u128 = (self.rate as u128) * (SCALE as u128);
        assert((elapsed_ms as int) * (self.rate as int) <= (u64::MAX as int) * (u64::MAX as int))
            by (nonlinear_arith)
            requires
                elapsed_ms <= u64::MAX,
                self.rate <= u64::MAX,
        ;
        let gained: u128 = (elapsed_ms as u128) * (self.rate as u128);
        let refreshed: u128 = if gained >= cap_units {
            cap_units
        } else {
            let grown = self.balance + gained;
            if grown <= cap_units {
                grown
            } else {
                cap_units
            }
        };
        self.last_ms = now_ms;
        let cost: u128 = (bytes as u128) * (SCALE as u128);
        if refreshed >= cost {
            self.balance = refreshed - cost;
            true
        } else {
            self.balance = refreshed;
            false
        }
    }
}

} // verus!
