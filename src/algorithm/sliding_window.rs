//! Sliding window: the usage over the trailing period is the current window's
//! count plus the previous window's count weighted by how much of it the
//! trailing period still covers.
//!
//! The stored value is the text `start_ms:current:previous`, kept for two
//! periods so that the previous count outlives one rollover.
use vstd::prelude::*;
use vstd::string::*;
use crate::decimal::{
    decimal_chars, decimal_of, format_i64, lemma_decimal_round_trip, parse_i64, parsed_i64,
};
use crate::error::ShieldError;
use crate::traffic_policy::TrafficPolicyExecutor;
use crate::storage::{
    check_limits, limits_result, max_int, min_int, writes_with_ttl, StoreWrite, MILLIS_IN_SEC,
};

verus! {

pub const MICROS_IN_MILLI: i64 = 1000;

pub const INSUFFICIENT_CAPACITY: i64 = -1;

/// A text split at its first `:`, `None` when it holds none.
pub open spec fn split_colon(s: Seq<char>) -> Option<(Seq<char>, Seq<char>)>
    decreases s.len(),
{
    if s.len() == 0 {
        None
    } else if s[0] == ':' {
        Some((Seq::<char>::empty(), s.drop_first()))
    } else {
        match split_colon(s.drop_first()) {
            Some((head, tail)) => Some((seq![s[0]] + head, tail)),
            None => None,
        }
    }
}

/// The fields `start:current:previous` of a stored state, each a 64-bit
/// integer; the third field runs to the end of the text.
pub open spec fn decoded_state(s: Seq<char>) -> Option<(i64, i64, i64)> {
    match split_colon(s) {
        None => None,
        Some((a, rest)) => match split_colon(rest) {
            None => None,
            Some((b, c)) => match (parsed_i64(a), parsed_i64(b), parsed_i64(c)) {
                (Some(x), Some(y), Some(z)) => Some((x, y, z)),
                _ => None,
            },
        },
    }
}

/// The stored text of a state.
pub open spec fn state_chars(start: int, current: int, previous: int) -> Seq<char> {
    decimal_of(start) + seq![':'] + decimal_of(current) + seq![':'] + decimal_of(previous)
}

pub open spec fn no_colon(s: Seq<char>) -> bool {
    forall|j: int| 0 <= j < s.len() ==> s[j] != ':'
}

/// Splitting at the first `:` gives what stands before it and after it.
pub proof fn lemma_split_colon(s: Seq<char>, i: int)
    requires
        0 <= i < s.len(),
        s[i] == ':',
        no_colon(s.subrange(0, i)),
    ensures
        split_colon(s) == Some((s.subrange(0, i), s.subrange(i + 1, s.len() as int))),
    decreases i,
{
    if i == 0 {
        assert(s.subrange(0, 0) =~= Seq::<char>::empty());
        assert(s.drop_first() =~= s.subrange(1, s.len() as int));
    } else {
        let t = s.drop_first();
        assert(s[0] == s.subrange(0, i)[0]);
        assert(t.subrange(0, i - 1) =~= s.subrange(1, i));
        assert forall|j: int| 0 <= j < i - 1 implies #[trigger] t.subrange(0, i - 1)[j] != ':' by {
            assert(t.subrange(0, i - 1)[j] == s.subrange(0, i)[j + 1]);
        }
        lemma_split_colon(t, i - 1);
        assert(seq![s[0]] + t.subrange(0, i - 1) =~= s.subrange(0, i));
        assert(t.subrange(i, t.len() as int) =~= s.subrange(i + 1, s.len() as int));
    }
}

/// A text without `:` does not split.
pub proof fn lemma_split_colon_none(s: Seq<char>)
    requires
        no_colon(s),
    ensures
        split_colon(s) is None,
    decreases s.len(),
{
    if s.len() > 0 {
        let t = s.drop_first();
        assert(no_colon(t)) by {
            assert forall|j: int| 0 <= j < t.len() implies t[j] != ':' by {
                assert(t[j] == s[j + 1]);
            }
        }
        lemma_split_colon_none(t);
    }
}

proof fn lemma_decimal_no_colon(v: i64)
    ensures
        no_colon(decimal_of(v as int)),
{
    lemma_decimal_round_trip(v);
    let s = decimal_of(v as int);
    assert forall|j: int| 0 <= j < s.len() implies s[j] != ':' by {
        assert(decimal_chars(s));
    }
}

/// Decoding the stored text of a state gives back its three fields.
pub proof fn lemma_state_round_trip(start: i64, current: i64, previous: i64)
    ensures
        decoded_state(state_chars(start as int, current as int, previous as int)) == Some(
            (start, current, previous),
        ),
{
    let a = decimal_of(start as int);
    let b = decimal_of(current as int);
    let c = decimal_of(previous as int);
    lemma_decimal_round_trip(start);
    lemma_decimal_round_trip(current);
    lemma_decimal_round_trip(previous);
    lemma_decimal_no_colon(start);
    lemma_decimal_no_colon(current);
    let s = state_chars(start as int, current as int, previous as int);
    let rest = b + seq![':'] + c;
    assert(s =~= a + seq![':'] + rest);
    assert(s.subrange(0, a.len() as int) =~= a);
    assert(s.subrange(a.len() as int + 1, s.len() as int) =~= rest);
    lemma_split_colon(s, a.len() as int);
    assert(rest.subrange(0, b.len() as int) =~= b);
    assert(rest.subrange(b.len() as int + 1, rest.len() as int) =~= c);
    lemma_split_colon(rest, b.len() as int);
}

/// The index of the first `:` at or after `from`, or the length when none follows.
fn find_colon(s: &str, from: usize) -> (r: usize)
    requires
        from <= s@.len(),
    ensures
        from <= r <= s@.len(),
        r < s@.len() ==> s@[r as int] == ':',
        forall|j: int| from <= j < r ==> s@[j] != ':',
{
    let n = s.unicode_len();
    let mut i = from;
    while i < n
        invariant
            from <= i <= n,
            n == s@.len(),
            forall|j: int| from <= j < i ==> s@[j] != ':',
        decreases n - i,
    {
        if s.get_char(i) == ':' {
            return i;
        }
        i = i + 1;
    }
    n
}

/// Splits a text at its first `:`.
fn split_at_colon(s: &str) -> (r: Option<(&str, &str)>)
    ensures
        match split_colon(s@) {
            None => r is None,
            Some((head, tail)) => r matches Some((h, t)) && h@ == head && t@ == tail,
        },
{
    let n = s.unicode_len();
    let i = find_colon(s, 0);
    if i >= n {
        proof {
            lemma_split_colon_none(s@);
        }
        return None;
    }
    proof {
        assert forall|j: int| 0 <= j < i implies s@.subrange(0, i as int)[j] != ':' by {
            assert(s@.subrange(0, i as int)[j] == s@[j]);
        }
        lemma_split_colon(s@, i as int);
    }
    Some((s.substring_char(0, i), s.substring_char(i + 1, n)))
}

/// The three integers of a stored state, `None` when the text is no state.
pub fn decode_state(payload: &str) -> (r: Option<(i64, i64, i64)>)
    ensures
        r == decoded_state(payload@),
{
    let (first, rest) = match split_at_colon(payload) {
        Some(parts) => parts,
        None => return None,
    };
    let (second, third) = match split_at_colon(rest) {
        Some(parts) => parts,
        None => return None,
    };
    match (parse_i64(first), parse_i64(second), parse_i64(third)) {
        (Some(start), Some(current), Some(previous)) => Some((start, current, previous)),
        _ => None,
    }
}

/// The stored text of a state.
pub fn encode_state(start: i64, current: i64, previous: i64) -> (r: String)
    ensures
        r@ == state_chars(start as int, current as int, previous as int),
{
    proof {
        reveal_strlit(":");
    }
    let mut text = format_i64(start);
    text.append(":");
    let current_text = format_i64(current);
    text.append(current_text.as_str());
    text.append(":");
    let previous_text = format_i64(previous);
    text.append(previous_text.as_str());
    text
}

/// A start after `now`, or before zero, restarts the window at `now`.
pub open spec fn start_in_range(start: int, now: int) -> int {
    if start > now || start < 0 {
        now
    } else {
        start
    }
}

/// `(start, current, previous)` moved forward to the window that holds `now`:
/// after one whole window the current count becomes the previous one, after
/// two or more both are dropped.
pub open spec fn aligned_state(start: int, current: int, previous: int, now: int, period: int) -> (
    int,
    int,
    int,
) {
    let s0 = start_in_range(start, now);
    let elapsed = now - s0;
    if elapsed >= period {
        let windows = elapsed / period;
        (s0 + windows * period, 0, if windows == 1 {
            current
        } else {
            0
        })
    } else {
        (s0, current, previous)
    }
}

/// The previous count weighted by the share of the trailing period that still
/// falls in the previous window, rounded down.
pub open spec fn weighted_previous(previous: int, elapsed: int, period: int) -> int {
    previous * (period - elapsed) / period
}

/// The usage over the trailing period, at most `capacity`.
pub open spec fn effective_usage(
    current: int,
    previous: int,
    elapsed: int,
    period: int,
    capacity: int,
) -> int {
    min_int(capacity, current + weighted_previous(previous, elapsed, period))
}

/// What a request for `units` returns given the usage: the capacity left after
/// it, or `-1` when the window cannot take it.
pub open spec fn admit_units(usage: int, units: int, capacity: int) -> int {
    if usage + units > capacity {
        -1
    } else {
        capacity - usage - units
    }
}

/// The time-to-live of a stored state: two periods, at most `i64::MAX`.
pub open spec fn state_ttl(period: int) -> int {
    min_int(2 * period, i64::MAX as int)
}

/// The state loaded from the store, before it is moved to `now`.
pub open spec fn loaded_fields(stored: Option<&str>, now: int, capacity: int) -> (int, int, int) {
    match stored {
        Some(text) => match decoded_state(text@) {
            Some((s, c, p)) => (
                min_int(max_int(s as int, 0), now),
                min_int(max_int(c as int, 0), capacity),
                min_int(max_int(p as int, 0), capacity),
            ),
            None => (now, 0, 0),
        },
        None => (now, 0, 0),
    }
}

/// Milliseconds since the epoch from the store clock's seconds and
/// microseconds, `TimeUnavailable` when they do not fit in 64 bits.
pub open spec fn time_millis(seconds: int, micros: int) -> Result<i64, ShieldError> {
    let from_micros = if micros >= 0 {
        micros / 1000
    } else {
        -((-micros) / 1000)
    };
    if seconds * 1000 < i64::MIN || seconds * 1000 > i64::MAX {
        Err(ShieldError::TimeUnavailable)
    } else if seconds * 1000 + from_micros < i64::MIN || seconds * 1000 + from_micros > i64::MAX {
        Err(ShieldError::TimeUnavailable)
    } else {
        Ok((seconds * 1000 + from_micros) as i64)
    }
}

/// Converts the store clock's reading to milliseconds.
pub fn current_time_millis(seconds: i64, micros: i64) -> (r: Result<i64, ShieldError>)
    ensures
        r == time_millis(seconds as int, micros as int),
{
    let millis_from_secs = match seconds.checked_mul(MILLIS_IN_SEC) {
        Some(v) => v,
        None => return Err(ShieldError::TimeUnavailable),
    };
    let millis_from_micros: i64 = micros / MICROS_IN_MILLI;
    match millis_from_secs.checked_add(millis_from_micros) {
        Some(v) => Ok(v),
        None => Err(ShieldError::TimeUnavailable),
    }
}

/// Reads one field of the store clock's reading.
pub fn time_field(text: &str) -> (r: Result<i64, ShieldError>)
    ensures
        r == match parsed_i64(text@) {
            Some(v) => Ok::<i64, ShieldError>(v),
            None => Err(ShieldError::TimeUnavailable),
        },
{
    match parse_i64(text) {
        Some(v) => Ok(v),
        None => Err(ShieldError::TimeUnavailable),
    }
}

/// A sliding window for one key.
pub struct SlidingWindow {
    /// Maximum usage per trailing period.
    pub capacity: i64,
    /// Window length in milliseconds.
    pub period: i64,
    /// When the current window started, in milliseconds since the epoch.
    pub current_start: i64,
    /// Units counted in the current window.
    pub current_count: i64,
    /// Units counted in the window before it.
    pub previous_count: i64,
    /// The store clock's reading when the window was loaded.
    pub now_ms: i64,
    /// The write that the last acceptance asks of the store.
    pub write: Option<StoreWrite>,
}

impl SlidingWindow {
    pub open spec fn wf(&self) -> bool {
        &&& self.capacity > 0
        &&& self.period > 0
        &&& 0 <= self.current_count <= self.capacity
        &&& 0 <= self.previous_count <= self.capacity
    }

    pub open spec fn fields(&self) -> (int, int, int) {
        (self.current_start as int, self.current_count as int, self.previous_count as int)
    }

    /// The window loaded from the store, or why it cannot be.
    pub open spec fn loaded(capacity: i64, period: i64, now_ms: i64, stored: Option<&str>) -> Result<
        SlidingWindow,
        ShieldError,
    > {
        match limits_result(capacity, period) {
            Err(e) => Err(e),
            Ok(period_ms) => {
                let (s0, c0, p0) = loaded_fields(stored, now_ms as int, capacity as int);
                let (s, c, p) = aligned_state(s0, c0, p0, now_ms as int, period_ms as int);
                Ok(
                    SlidingWindow {
                        capacity,
                        period: period_ms,
                        current_start: s as i64,
                        current_count: c as i64,
                        previous_count: p as i64,
                        now_ms,
                        write: None,
                    },
                )
            },
        }
    }

    /// Loads the window from the store clock's reading and the key's stored
    /// text, if any. Text that is no state starts a new window at `now_ms`.
    pub fn new(capacity: i64, period: i64, now_ms: i64, stored: Option<&str>) -> (r: Result<
        SlidingWindow,
        ShieldError,
    >)
        ensures
            r == SlidingWindow::loaded(capacity, period, now_ms, stored),
            r matches Ok(w) ==> w.wf(),
    {
        let period_ms = match check_limits(capacity, period) {
            Ok(p) => p,
            Err(e) => return Err(e),
        };
        let mut limiter = SlidingWindow {
            capacity,
            period: period_ms,
            current_start: now_ms,
            current_count: 0,
            previous_count: 0,
            now_ms,
            write: None,
        };
        limiter.load_state(stored, now_ms);
        Ok(limiter)
    }

    fn load_state(&mut self, stored: Option<&str>, now_ms: i64)
        requires
            old(self).wf(),
            old(self).fields() == (now_ms as int, 0int, 0int),
        ensures
            final(self).wf(),
            final(self).capacity == old(self).capacity,
            final(self).period == old(self).period,
            final(self).now_ms == old(self).now_ms,
            final(self).write == old(self).write,
            ({
                let (s, c, p) = loaded_fields(stored, now_ms as int, old(self).capacity as int);
                final(self).fields() == aligned_state(s, c, p, now_ms as int, old(self).period as int)
            }),
    {
        if let Some(payload) = stored {
            if let Some((start, current, previous)) = decode_state(payload) {
                self.current_start = clamp(start, 0, now_ms);
                self.current_count = clamp(current, 0, self.capacity);
                self.previous_count = clamp(previous, 0, self.capacity);
            }
        }
        let _ = self.align_to_now(now_ms);
    }

    /// Moves the window forward to the one that holds `now_ms`, and returns
    /// the time elapsed in it.
    pub fn align_to_now(&mut self, now_ms: i64) -> (elapsed: i64)
        requires
            old(self).wf(),
        ensures
            final(self).wf(),
            final(self).capacity == old(self).capacity,
            final(self).period == old(self).period,
            final(self).now_ms == old(self).now_ms,
            final(self).write == old(self).write,
            final(self).fields() == aligned_state(
                old(self).current_start as int,
                old(self).current_count as int,
                old(self).previous_count as int,
                now_ms as int,
                old(self).period as int,
            ),
            elapsed == now_ms - final(self).current_start,
            0 <= elapsed < final(self).period,
    {
        if self.current_start > now_ms || self.current_start < 0 {
            self.current_start = now_ms;
        }
        let mut elapsed = now_ms - self.current_start;
        if elapsed >= self.period {
            let windows_passed = elapsed / self.period;
            if windows_passed == 1 {
                self.previous_count = self.current_count;
            } else {
                self.previous_count = 0;
            }
            self.current_count = 0;
            proof {
                vstd::arithmetic::div_mod::lemma_fundamental_div_mod(
                    elapsed as int,
                    self.period as int,
                );
                vstd::arithmetic::div_mod::lemma_mod_bound(elapsed as int, self.period as int);
                vstd::arithmetic::div_mod::lemma_div_pos_is_pos(
                    elapsed as int,
                    self.period as int,
                );
                assert(windows_passed * self.period == self.period * windows_passed)
                    by (nonlinear_arith);
            }
            let advance = windows_passed * self.period;
            self.current_start = self.current_start + advance;
            elapsed = now_ms - self.current_start;
        }
        elapsed
    }

    /// The usage over the trailing period, `elapsed` milliseconds into the
    /// current window.
    pub fn effective_usage(&self, elapsed: i64) -> (r: i64)
        requires
            self.wf(),
            0 <= elapsed <= self.period,
        ensures
            r == effective_usage(
                self.current_count as int,
                self.previous_count as int,
                elapsed as int,
                self.period as int,
                self.capacity as int,
            ),
            self.current_count <= r <= self.capacity,
    {
        let remaining = self.period - elapsed;
        proof {
            let p = self.previous_count as int;
            let t = self.period as int;
            assert(0 <= p * remaining <= p * t) by (nonlinear_arith)
                requires
                    0 <= remaining <= t,
                    p >= 0,
            ;
            assert(p * t <= i64::MAX * i64::MAX) by (nonlinear_arith)
                requires
                    0 <= p <= i64::MAX,
                    0 < t <= i64::MAX,
            ;
            vstd::arithmetic::div_mod::lemma_div_is_ordered(p * remaining, p * t, t);
            vstd::arithmetic::div_mod::lemma_div_by_multiple(p, t);
            vstd::arithmetic::div_mod::lemma_div_pos_is_pos(p * remaining, t);
        }
        let weighted_previous = ((self.previous_count as i128) * (remaining as i128) / (
        self.period as i128)) as i64;
        // Add without overflow, then cap at the capacity.
        if self.current_count >= self.capacity - weighted_previous {
            self.capacity
        } else {
            self.current_count + weighted_previous
        }
    }

    /// Counts `tokens` units at time `now_ms`. On acceptance the state is
    /// stored for two periods and the capacity left is returned; a denial
    /// (`-1`) asks for no write.
    pub fn consume(&mut self, tokens: i64, now_ms: i64) -> (r: Result<i64, ShieldError>)
        requires
            old(self).wf(),
        ensures
            final(self).wf(),
            final(self).capacity == old(self).capacity,
            final(self).period == old(self).period,
            final(self).now_ms == old(self).now_ms,
            tokens <= 0 ==> r == Err::<i64, ShieldError>(ShieldError::TokensNotPositive)
                && *final(self) == *old(self),
            tokens > 0 ==> {
                let (s, c, p) = aligned_state(
                    old(self).current_start as int,
                    old(self).current_count as int,
                    old(self).previous_count as int,
                    now_ms as int,
                    old(self).period as int,
                );
                let usage = effective_usage(
                    c,
                    p,
                    now_ms - s,
                    old(self).period as int,
                    old(self).capacity as int,
                );
                &&& r == Ok::<i64, ShieldError>(
                    admit_units(usage, tokens as int, old(self).capacity as int) as i64,
                )
                &&& final(self).current_start == s
                &&& final(self).previous_count == p
                &&& usage + tokens > old(self).capacity ==> final(self).current_count == c
                    && final(self).write == old(self).write
                &&& usage + tokens <= old(self).capacity ==> final(self).current_count == c
                    + tokens && writes_with_ttl(
                    final(self).write,
                    state_ttl(old(self).period as int),
                    state_chars(s, c + tokens, p),
                )
            },
            r matches Ok(v) && v == -1 ==> final(self).write == old(self).write,
            r matches Ok(v) ==> v == -1 || 0 <= v <= old(self).capacity,
    {
        if tokens <= 0 {
            return Err(ShieldError::TokensNotPositive);
        }
        let elapsed = self.align_to_now(now_ms);
        let usage = self.effective_usage(elapsed);
        if tokens > self.capacity - usage {
            return Ok(INSUFFICIENT_CAPACITY);
        }
        self.current_count = self.current_count + tokens;
        self.persist_state();
        Ok(self.capacity - usage - tokens)
    }

    /// Asks the store to keep the state for two periods.
    fn persist_state(&mut self)
        requires
            old(self).wf(),
        ensures
            final(self).capacity == old(self).capacity,
            final(self).period == old(self).period,
            final(self).now_ms == old(self).now_ms,
            final(self).fields() == old(self).fields(),
            writes_with_ttl(
                final(self).write,
                state_ttl(old(self).period as int),
                state_chars(
                    old(self).current_start as int,
                    old(self).current_count as int,
                    old(self).previous_count as int,
                ),
            ),
    {
        let value = encode_state(self.current_start, self.current_count, self.previous_count);
        let ttl = if self.period > i64::MAX / 2 {
            i64::MAX
        } else {
            self.period * 2
        };
        self.write = Some(StoreWrite::WithTtl { ttl_ms: ttl, value });
    }
}

/// `value` kept within `[low, high]`, `high` winning when they cross.
fn clamp(value: i64, low: i64, high: i64) -> (r: i64)
    ensures
        r == min_int(max_int(value as int, low as int), high as int),
{
    let raised = if value < low {
        low
    } else {
        value
    };
    if raised > high {
        high
    } else {
        raised
    }
}

impl TrafficPolicyExecutor for SlidingWindow {
    open spec fn well_formed(&self) -> bool {
        self.wf()
    }

    open spec fn limit(&self) -> int {
        self.capacity as int
    }

    open spec fn pending_write(&self) -> Option<StoreWrite> {
        self.write
    }

    open spec fn outcome(&self, tokens: i64) -> Result<i64, ShieldError> {
        if tokens <= 0 {
            Err(ShieldError::TokensNotPositive)
        } else {
            let (s, c, p) = aligned_state(
                self.current_start as int,
                self.current_count as int,
                self.previous_count as int,
                self.now_ms as int,
                self.period as int,
            );
            let usage = effective_usage(c, p, self.now_ms - s, self.period as int, self.capacity as int);
            Ok(admit_units(usage, tokens as int, self.capacity as int) as i64)
        }
    }

    fn execute(&mut self, tokens: i64) -> (r: Result<i64, ShieldError>) {
        self.consume(tokens, self.now_ms)
    }
}

} // verus!
