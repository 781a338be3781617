//! What the policies read from the key/value store and what they ask it to write.
use vstd::prelude::*;
use crate::decimal::{parse_i64, parsed_i64};
use crate::error::ShieldError;

verus! {

pub const MILLIS_IN_SEC: i64 = 1000;

/// A write that an accepting policy asks the store to perform on its key.
#[derive(Debug, PartialEq, Eq)]
pub enum StoreWrite {
    /// Set the value with a fresh time-to-live in milliseconds (`PSETEX`).
    WithTtl { ttl_ms: i64, value: String },
    /// Set the value and keep the key's current time-to-live (`SET .. KEEPTTL`).
    KeepTtl { value: String },
}

/// `w` sets `value` with a fresh time-to-live of `ttl_ms`.
pub open spec fn writes_with_ttl(w: Option<StoreWrite>, ttl_ms: int, value: Seq<char>) -> bool {
    match w {
        Some(StoreWrite::WithTtl { ttl_ms: t, value: v }) => t == ttl_ms && v@ == value,
        _ => false,
    }
}

/// `w` sets `value` and keeps the key's time-to-live.
pub open spec fn writes_keep_ttl(w: Option<StoreWrite>, value: Seq<char>) -> bool {
    match w {
        Some(StoreWrite::KeepTtl { value: v }) => v@ == value,
        _ => false,
    }
}

/// The period in milliseconds, or the error for capacity and period in seconds.
pub open spec fn limits_result(capacity: i64, period_sec: i64) -> Result<i64, ShieldError> {
    if capacity <= 0 {
        Err(ShieldError::CapacityNotPositive)
    } else if period_sec <= 0 {
        Err(ShieldError::PeriodNotPositive)
    } else if period_sec * MILLIS_IN_SEC > i64::MAX {
        Err(ShieldError::PeriodTooLarge)
    } else {
        Ok((period_sec * MILLIS_IN_SEC) as i64)
    }
}

/// Checks capacity and period, and gives the period in milliseconds.
pub fn check_limits(capacity: i64, period_sec: i64) -> (r: Result<i64, ShieldError>)
    ensures
        r == limits_result(capacity, period_sec),
{
    if capacity <= 0 {
        return Err(ShieldError::CapacityNotPositive);
    }
    if period_sec <= 0 {
        return Err(ShieldError::PeriodNotPositive);
    }
    match period_sec.checked_mul(MILLIS_IN_SEC) {
        Some(period_ms) => Ok(period_ms),
        None => Err(ShieldError::PeriodTooLarge),
    }
}

/// The integer stored at a key, zero when the key holds nothing, `None` when the
/// stored text is no integer.
pub open spec fn stored_integer(stored: Option<&str>) -> Option<i64> {
    match stored {
        None => Some(0),
        Some(s) => parsed_i64(s@),
    }
}

/// Reads the integer stored at a key.
pub fn read_stored_integer(stored: Option<&str>) -> (r: Option<i64>)
    ensures
        r == stored_integer(stored),
{
    match stored {
        None => Some(0),
        Some(s) => parse_i64(s),
    }
}

/// A remaining time-to-live clamped into `[0, period]`: a missing key (`-2`) or
/// one without expiry (`-1`) counts as `0`.
pub open spec fn clamp_ttl(ttl: int, period: int) -> int {
    if ttl < 0 {
        0
    } else if ttl > period {
        period
    } else {
        ttl
    }
}

/// The part of `capacity` that accrues over the time since the last write,
/// `(period - ttl) * capacity / period`, rounded down.
pub open spec fn accrued(ttl: int, period: int, capacity: int) -> int {
    (period - clamp_ttl(ttl, period)) * capacity / period
}

pub open spec fn min_int(a: int, b: int) -> int {
    if a <= b {
        a
    } else {
        b
    }
}

pub open spec fn max_int(a: int, b: int) -> int {
    if a >= b {
        a
    } else {
        b
    }
}

/// Computes `accrued(ttl, period, capacity)` with a 128-bit intermediate product.
pub fn accrued_since_write(ttl: i64, period: i64, capacity: i64) -> (r: i64)
    requires
        period > 0,
        capacity > 0,
    ensures
        r == accrued(ttl as int, period as int, capacity as int),
        0 <= r <= capacity,
{
    let current_ttl: i64 = if ttl < 0 {
        0
    } else if ttl > period {
        period
    } else {
        ttl
    };
    let elapsed: i64 = period - current_ttl;
    proof {
        assert(0 <= elapsed * capacity <= period * capacity) by (nonlinear_arith)
            requires
                0 <= elapsed <= period,
                capacity > 0,
        ;
        assert(period * capacity <= i64::MAX * i64::MAX) by (nonlinear_arith)
            requires
                0 < period <= i64::MAX,
                0 < capacity <= i64::MAX,
        ;
        vstd::arithmetic::div_mod::lemma_div_is_ordered(
            elapsed * capacity,
            period * capacity,
            period as int,
        );
        vstd::arithmetic::div_mod::lemma_div_by_multiple(capacity as int, period as int);
        assert(period * capacity == capacity * period) by (nonlinear_arith);
        vstd::arithmetic::div_mod::lemma_div_pos_is_pos(elapsed * capacity, period as int);
    }
    let product: i128 = (elapsed as i128) * (capacity as i128);
    (product / (period as i128)) as i64
}

} // verus!
