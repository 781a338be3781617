//! Leaky bucket: a level of at most `capacity` units that leaks linearly over
//! the period; each request pours its units in.
//!
//! The stored value is the level after the last acceptance; the key's remaining
//! time-to-live tells how much of the period has passed since.
use vstd::prelude::*;
use crate::decimal::{decimal_of, format_i64};
use crate::error::ShieldError;
use crate::traffic_policy::TrafficPolicyExecutor;
use crate::storage::{
    accrued, accrued_since_write, check_limits, limits_result, min_int, max_int,
    read_stored_integer, stored_integer, writes_with_ttl, StoreWrite,
};

verus! {

pub const OVERFLOW: i64 = -1;

/// The level after the leak: the stored level (at least zero) less what the
/// elapsed time leaked, kept within `[0, capacity]`.
pub open spec fn leaked_level(stored: int, ttl: int, period: int, capacity: int) -> int {
    min_int(capacity, max_int(0, max_int(stored, 0) - accrued(ttl, period, capacity)))
}

/// What pouring `units` into a level returns: the room left, or `-1` when
/// they would overflow the capacity.
pub open spec fn pour_units(level: int, units: int, capacity: int) -> int {
    if level + units > capacity {
        -1
    } else {
        capacity - (level + units)
    }
}

/// A leaky bucket for one key.
pub struct LeakyBucket {
    /// Maximum level.
    pub capacity: i64,
    /// Leak period in milliseconds: `capacity` units leak per period.
    pub period: i64,
    /// Units in the bucket now.
    pub level: i64,
    /// The write that the last acceptance asks of the store.
    pub write: Option<StoreWrite>,
}

impl LeakyBucket {
    pub open spec fn wf(&self) -> bool {
        &&& self.capacity > 0
        &&& self.period > 0
        &&& 0 <= self.level <= self.capacity
    }

    /// The bucket loaded from the store, or why it cannot be.
    pub open spec fn loaded(capacity: i64, period: i64, ttl: i64, stored: Option<&str>) -> Result<
        LeakyBucket,
        ShieldError,
    > {
        match limits_result(capacity, period) {
            Err(e) => Err(e),
            Ok(period_ms) => match stored_integer(stored) {
                None => Err(ShieldError::InvalidBucketLevel),
                Some(v) => Ok(
                    LeakyBucket {
                        capacity,
                        period: period_ms,
                        level: leaked_level(
                            v as int,
                            ttl as int,
                            period_ms as int,
                            capacity as int,
                        ) as i64,
                        write: None,
                    },
                ),
            },
        }
    }

    /// Loads the bucket from what the store holds: the key's remaining
    /// time-to-live in milliseconds (`-2` absent, `-1` no expiry) and its
    /// stored text, if any.
    pub fn new(capacity: i64, period: i64, ttl: i64, stored: Option<&str>) -> (r: Result<
        LeakyBucket,
        ShieldError,
    >)
        ensures
            r == LeakyBucket::loaded(capacity, period, ttl, stored),
            r matches Ok(b) ==> b.wf(),
    {
        let period_ms = match check_limits(capacity, period) {
            Ok(p) => p,
            Err(e) => return Err(e),
        };
        let level = match Self::fetch_level(capacity, period_ms, ttl, stored) {
            Ok(l) => l,
            Err(e) => return Err(e),
        };
        Ok(LeakyBucket { capacity, period: period_ms, level, write: None })
    }

    /// The level now: the stored level less what the time since the last
    /// write leaked, within `[0, capacity]`.
    fn fetch_level(capacity: i64, period_ms: i64, ttl: i64, stored: Option<&str>) -> (r: Result<
        i64,
        ShieldError,
    >)
        requires
            capacity > 0,
            period_ms > 0,
        ensures
            match stored_integer(stored) {
                None => r == Err::<i64, ShieldError>(ShieldError::InvalidBucketLevel),
                Some(v) => r == Ok::<i64, ShieldError>(
                    leaked_level(v as int, ttl as int, period_ms as int, capacity as int) as i64,
                ),
            },
            r matches Ok(l) ==> 0 <= l <= capacity,
    {
        let leaked = accrued_since_write(ttl, period_ms, capacity);
        let stored_level = match read_stored_integer(stored) {
            Some(v) => if v < 0 {
                0
            } else {
                v
            },
            None => return Err(ShieldError::InvalidBucketLevel),
        };
        let drained: i64 = if stored_level <= leaked {
            0
        } else {
            stored_level - leaked
        };
        if drained > capacity {
            Ok(capacity)
        } else {
            Ok(drained)
        }
    }

    /// Pours `burst` units in. On acceptance the new level is stored with a
    /// fresh time-to-live of one period and the room left is returned; a
    /// denial (`-1`) leaves the bucket as it was.
    pub fn add(&mut self, burst: i64) -> (r: Result<i64, ShieldError>)
        requires
            old(self).wf(),
        ensures
            final(self).wf(),
            final(self).capacity == old(self).capacity,
            final(self).period == old(self).period,
            burst <= 0 ==> r == Err::<i64, ShieldError>(ShieldError::TokensNotPositive)
                && *final(self) == *old(self),
            burst > 0 ==> r == Ok::<i64, ShieldError>(
                pour_units(old(self).level as int, burst as int, old(self).capacity as int) as i64,
            ),
            burst > 0 && old(self).level + burst > old(self).capacity ==> *final(self) == *old(
                self,
            ),
            burst > 0 && old(self).level + burst <= old(self).capacity ==> final(self).level
                == old(self).level + burst && writes_with_ttl(
                final(self).write,
                old(self).period as int,
                decimal_of(final(self).level as int),
            ),
            r matches Ok(v) ==> v == -1 || 0 <= v <= old(self).capacity,
    {
        if burst <= 0 {
            return Err(ShieldError::TokensNotPositive);
        }
        if burst > self.capacity - self.level {
            return Ok(OVERFLOW);
        }
        self.level = self.level + burst;
        let value = format_i64(self.level);
        self.write = Some(StoreWrite::WithTtl { ttl_ms: self.period, value });
        Ok(self.capacity - self.level)
    }
}

impl TrafficPolicyExecutor for LeakyBucket {
    open spec fn well_formed(&self) -> bool {
        self.wf()
    }

    open spec fn limit(&self) -> int {
        self.capacity as int
    }

    open spec fn pending_write(&self) -> Option<StoreWrite> {
        self.write
    }

    open spec fn outcome(&self, tokens: i64) -> Result<i64, ShieldError> {
        if tokens <= 0 {
            Err(ShieldError::TokensNotPositive)
        } else {
            Ok(pour_units(self.level as int, tokens as int, self.capacity as int) as i64)
        }
    }

    fn execute(&mut self, tokens: i64) -> (r: Result<i64, ShieldError>) {
        self.add(tokens)
    }
}

} // verus!
