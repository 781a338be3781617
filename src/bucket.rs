//! Token bucket: `capacity` tokens refilled linearly over the period.
//!
//! The stored value is the balance left after the last acceptance; the key's
//! remaining time-to-live tells how much of the period has passed since.
use vstd::prelude::*;
use crate::decimal::{decimal_of, format_i64};
use crate::error::ShieldError;
use crate::traffic_policy::TrafficPolicyExecutor;
use crate::storage::{
    accrued, accrued_since_write, check_limits, limits_result, min_int, max_int,
    read_stored_integer, stored_integer, writes_with_ttl, StoreWrite,
};

verus! {

pub const INSUFFICIENT_TOKENS: i64 = -1;

/// The balance after refill: the stored balance (at least zero) plus what the
/// elapsed time refilled, at most `capacity`.
pub open spec fn refilled_tokens(stored: int, ttl: int, period: int, capacity: int) -> int {
    min_int(capacity, max_int(stored, 0) + accrued(ttl, period, capacity))
}

/// What taking `units` from a balance returns: the balance left, or `-1` when
/// the balance does not cover them.
pub open spec fn take_tokens(balance: int, units: int) -> int {
    if units > balance {
        -1
    } else {
        balance - units
    }
}

/// A token bucket for one key.
pub struct Bucket {
    /// Maximum number of tokens.
    pub capacity: i64,
    /// Refill period in milliseconds.
    pub period: i64,
    /// Tokens available now.
    pub tokens: i64,
    /// The write that the last acceptance asks of the store.
    pub write: Option<StoreWrite>,
}

impl Bucket {
    pub open spec fn wf(&self) -> bool {
        &&& self.capacity > 0
        &&& self.period > 0
        &&& 0 <= self.tokens <= self.capacity
    }

    /// The bucket loaded from the store, or why it cannot be.
    pub open spec fn loaded(capacity: i64, period: i64, ttl: i64, stored: Option<&str>) -> Result<
        Bucket,
        ShieldError,
    > {
        match limits_result(capacity, period) {
            Err(e) => Err(e),
            Ok(period_ms) => match stored_integer(stored) {
                None => Err(ShieldError::InvalidTokenCount),
                Some(v) => Ok(
                    Bucket {
                        capacity,
                        period: period_ms,
                        tokens: refilled_tokens(
                            v as int,
                            ttl as int,
                            period_ms as int,
                            capacity as int,
                        ) as i64,
                        write: None,
                    },
                ),
            },
        }
    }

    /// Loads the bucket from what the store holds: the key's remaining
    /// time-to-live in milliseconds (`-2` absent, `-1` no expiry) and its
    /// stored text, if any.
    pub fn new(capacity: i64, period: i64, ttl: i64, stored: Option<&str>) -> (r: Result<
        Bucket,
        ShieldError,
    >)
        ensures
            r == Bucket::loaded(capacity, period, ttl, stored),
            r matches Ok(b) ==> b.wf(),
    {
        let period_ms = match check_limits(capacity, period) {
            Ok(p) => p,
            Err(e) => return Err(e),
        };
        let tokens = match Self::fetch_tokens(capacity, period_ms, ttl, stored) {
            Ok(t) => t,
            Err(e) => return Err(e),
        };
        Ok(Bucket { capacity, period: period_ms, tokens, write: None })
    }

    /// The balance now: the stored balance plus what the time since the last
    /// write refilled, at most `capacity`.
    fn fetch_tokens(capacity: i64, period_ms: i64, ttl: i64, stored: Option<&str>) -> (r: Result<
        i64,
        ShieldError,
    >)
        requires
            capacity > 0,
            period_ms > 0,
        ensures
            match stored_integer(stored) {
                None => r == Err::<i64, ShieldError>(ShieldError::InvalidTokenCount),
                Some(v) => r == Ok::<i64, ShieldError>(
                    refilled_tokens(v as int, ttl as int, period_ms as int, capacity as int) as i64,
                ),
            },
            r matches Ok(t) ==> 0 <= t <= capacity,
    {
        let refilled = accrued_since_write(ttl, period_ms, capacity);
        let remaining = match read_stored_integer(stored) {
            Some(v) => if v < 0 {
                0
            } else {
                v
            },
            None => return Err(ShieldError::InvalidTokenCount),
        };
        // Add the refill without overflow, then cap at the capacity.
        if remaining >= capacity - refilled {
            Ok(capacity)
        } else {
            Ok(remaining + refilled)
        }
    }

    /// Takes `tokens` from the bucket. On acceptance the new balance is
    /// returned and stored with a fresh time-to-live of one period; a denial
    /// (`-1`) leaves the bucket as it was.
    pub fn pour(&mut self, tokens: i64) -> (r: Result<i64, ShieldError>)
        requires
            old(self).wf(),
        ensures
            final(self).wf(),
            final(self).capacity == old(self).capacity,
            final(self).period == old(self).period,
            tokens <= 0 ==> r == Err::<i64, ShieldError>(ShieldError::TokensNotPositive)
                && *final(self) == *old(self),
            tokens > 0 ==> r == Ok::<i64, ShieldError>(
                take_tokens(old(self).tokens as int, tokens as int) as i64,
            ),
            tokens > 0 && tokens > old(self).tokens ==> *final(self) == *old(self),
            tokens > 0 && tokens <= old(self).tokens ==> final(self).tokens == old(self).tokens
                - tokens && writes_with_ttl(
                final(self).write,
                old(self).period as int,
                decimal_of(final(self).tokens as int),
            ),
            r matches Ok(v) ==> v == -1 || 0 <= v <= old(self).capacity,
    {
        if tokens <= 0 {
            return Err(ShieldError::TokensNotPositive);
        }
        if tokens > self.tokens {
            Ok(INSUFFICIENT_TOKENS)
        } else {
            self.tokens = self.tokens - tokens;
            let value = format_i64(self.tokens);
            self.write = Some(StoreWrite::WithTtl { ttl_ms: self.period, value });
            Ok(self.tokens)
        }
    }
}

impl TrafficPolicyExecutor for Bucket {
    open spec fn well_formed(&self) -> bool {
        self.wf()
    }

    open spec fn limit(&self) -> int {
        self.capacity as int
    }

    open spec fn pending_write(&self) -> Option<StoreWrite> {
        self.write
    }

    open spec fn outcome(&self, tokens: i64) -> Result<i64, ShieldError> {
        if tokens <= 0 {
            Err(ShieldError::TokensNotPositive)
        } else {
            Ok(take_tokens(self.tokens as int, tokens as int) as i64)
        }
    }

    fn execute(&mut self, tokens: i64) -> (r: Result<i64, ShieldError>) {
        self.pour(tokens)
    }
}

} // verus!
