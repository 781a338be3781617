//! Fixed window: at most `capacity` hits per window of one period.
//!
//! The stored value counts the hits of the current window, and the key expires
//! when the window ends.
use vstd::prelude::*;
use crate::decimal::{decimal_of, format_i64};
use crate::error::ShieldError;
use crate::traffic_policy::TrafficPolicyExecutor;
use crate::storage::{
    check_limits, limits_result, max_int, read_stored_integer, stored_integer, writes_keep_ttl,
    writes_with_ttl, StoreWrite,
};

verus! {

/// A remaining time-to-live at or below this many milliseconds counts as an
/// expired window.
pub const MIN_ACTIVE_TTL_MS: i64 = 1;

pub const INSUFFICIENT_CAPACITY: i64 = -1;

/// What counting `units` more hits returns: the capacity left in the window,
/// or `-1` when the window cannot take them.
pub open spec fn count_hits(count: int, units: int, capacity: int) -> int {
    if count + units > capacity {
        -1
    } else {
        capacity - (count + units)
    }
}

/// A fixed window for one key.
pub struct FixedWindow {
    /// Maximum hits per window.
    pub capacity: i64,
    /// Window length in milliseconds.
    pub period: i64,
    /// Hits already counted in the current window.
    pub count: i64,
    /// Whether the key holds a window that has not expired.
    pub has_active_window: bool,
    /// The write that the last acceptance asks of the store.
    pub write: Option<StoreWrite>,
}

impl FixedWindow {
    pub open spec fn wf(&self) -> bool {
        &&& self.capacity > 0
        &&& self.period > 0
        &&& self.count >= 0
        &&& !self.has_active_window ==> self.count == 0
    }

    /// The window loaded from the store, or why it cannot be.
    pub open spec fn loaded(capacity: i64, period: i64, ttl: i64, stored: Option<&str>) -> Result<
        FixedWindow,
        ShieldError,
    > {
        match limits_result(capacity, period) {
            Err(e) => Err(e),
            Ok(period_ms) => if ttl <= MIN_ACTIVE_TTL_MS {
                Ok(
                    FixedWindow {
                        capacity,
                        period: period_ms,
                        count: 0,
                        has_active_window: false,
                        write: None,
                    },
                )
            } else {
                match stored_integer(stored) {
                    None => Err(ShieldError::InvalidWindowCounter),
                    Some(v) => Ok(
                        FixedWindow {
                            capacity,
                            period: period_ms,
                            count: max_int(v as int, 0) as i64,
                            has_active_window: true,
                            write: None,
                        },
                    ),
                }
            },
        }
    }

    /// Loads the window from what the store holds: the key's remaining
    /// time-to-live in milliseconds (`-2` absent, `-1` no expiry) and its
    /// stored text, if any. The stored text is read only in an active window.
    pub fn new(capacity: i64, period: i64, ttl: i64, stored: Option<&str>) -> (r: Result<
        FixedWindow,
        ShieldError,
    >)
        ensures
            r == FixedWindow::loaded(capacity, period, ttl, stored),
            r matches Ok(w) ==> w.wf(),
    {
        let period_ms = match check_limits(capacity, period) {
            Ok(p) => p,
            Err(e) => return Err(e),
        };
        let (count, has_active_window) = match Self::fetch_count(ttl, stored) {
            Ok(found) => found,
            Err(e) => return Err(e),
        };
        Ok(FixedWindow { capacity, period: period_ms, count, has_active_window, write: None })
    }

    /// The count of the current window and whether one is active: a key with
    /// more than `MIN_ACTIVE_TTL_MS` to live holds one.
    fn fetch_count(ttl: i64, stored: Option<&str>) -> (r: Result<(i64, bool), ShieldError>)
        ensures
            ttl <= MIN_ACTIVE_TTL_MS ==> r == Ok::<(i64, bool), ShieldError>((0, false)),
            ttl > MIN_ACTIVE_TTL_MS ==> match stored_integer(stored) {
                None => r == Err::<(i64, bool), ShieldError>(ShieldError::InvalidWindowCounter),
                Some(v) => r == Ok::<(i64, bool), ShieldError>((max_int(v as int, 0) as i64, true)),
            },
    {
        if ttl <= MIN_ACTIVE_TTL_MS {
            return Ok((0, false));
        }
        match read_stored_integer(stored) {
            Some(v) => if v < 0 {
                Ok((0, true))
            } else {
                Ok((v, true))
            },
            None => Err(ShieldError::InvalidWindowCounter),
        }
    }

    /// Counts `tokens` hits in the current window. On acceptance the new count
    /// is stored, keeping the window's expiry when one is active and starting a
    /// window of one period otherwise, and the capacity left is returned; a
    /// denial (`-1`) leaves the window as it was.
    pub fn consume(&mut self, tokens: i64) -> (r: Result<i64, ShieldError>)
        requires
            old(self).wf(),
        ensures
            final(self).wf(),
            final(self).capacity == old(self).capacity,
            final(self).period == old(self).period,
            tokens <= 0 ==> r == Err::<i64, ShieldError>(ShieldError::TokensNotPositive)
                && *final(self) == *old(self),
            tokens > 0 ==> r == Ok::<i64, ShieldError>(
                count_hits(old(self).count as int, tokens as int, old(self).capacity as int) as i64,
            ),
            tokens > 0 && old(self).count + tokens > old(self).capacity ==> *final(self) == *old(
                self,
            ),
            tokens > 0 && old(self).count + tokens <= old(self).capacity ==> {
                &&& final(self).count == old(self).count + tokens
                &&& final(self).has_active_window
                &&& old(self).has_active_window ==> writes_keep_ttl(
                    final(self).write,
                    decimal_of(final(self).count as int),
                )
                &&& !old(self).has_active_window ==> writes_with_ttl(
                    final(self).write,
                    old(self).period as int,
                    decimal_of(final(self).count as int),
                )
            },
            r matches Ok(v) ==> v == -1 || 0 <= v <= old(self).capacity,
    {
        if tokens <= 0 {
            return Err(ShieldError::TokensNotPositive);
        }
        if self.count > self.capacity || tokens > self.capacity - self.count {
            return Ok(INSUFFICIENT_CAPACITY);
        }
        self.count = self.count + tokens;
        self.persist_count();
        Ok(self.capacity - self.count)
    }

    /// Asks the store to keep the count: within the active window's expiry, or
    /// in a new window of one period.
    fn persist_count(&mut self)
        ensures
            final(self).capacity == old(self).capacity,
            final(self).period == old(self).period,
            final(self).count == old(self).count,
            final(self).has_active_window,
            old(self).has_active_window ==> writes_keep_ttl(
                final(self).write,
                decimal_of(old(self).count as int),
            ),
            !old(self).has_active_window ==> writes_with_ttl(
                final(self).write,
                old(self).period as int,
                decimal_of(old(self).count as int),
            ),
    {
        let value = format_i64(self.count);
        if self.has_active_window {
            self.write = Some(StoreWrite::KeepTtl { value });
        } else {
            self.write = Some(StoreWrite::WithTtl { ttl_ms: self.period, value });
            self.has_active_window = true;
        }
    }
}

impl TrafficPolicyExecutor for FixedWindow {
    open spec fn well_formed(&self) -> bool {
        self.wf()
    }

    open spec fn limit(&self) -> int {
        self.capacity as int
    }

    open spec fn pending_write(&self) -> Option<StoreWrite> {
        self.write
    }

    open spec fn outcome(&self, tokens: i64) -> Result<i64, ShieldError> {
        if tokens <= 0 {
            Err(ShieldError::TokensNotPositive)
        } else {
            Ok(count_hits(self.count as int, tokens as int, self.capacity as int) as i64)
        }
    }

    fn execute(&mut self, tokens: i64) -> (r: Result<i64, ShieldError>) {
        self.consume(tokens)
    }
}

} // verus!
