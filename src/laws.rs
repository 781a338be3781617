//! Properties that relate successive calls of the policies.
//!
//! Each policy persists its state as decimal text and reads it back on the
//! next call; these lemmas follow one acceptance into the next call.
use vstd::prelude::*;
use crate::algorithm::fixed_window::count_hits;
use crate::algorithm::leaky_bucket::{leaked_level, pour_units};
use crate::algorithm::sliding_window::{
    admit_units, aligned_state, effective_usage, weighted_previous,
};
use crate::bucket::{refilled_tokens, take_tokens};
use crate::decimal::{decimal_of, lemma_decimal_round_trip, parsed_i64};
use crate::storage::{accrued, clamp_ttl};

verus! {

proof fn lemma_accrued_bounds(ttl: int, period: int, capacity: int)
    requires
        period > 0,
        capacity > 0,
    ensures
        0 <= accrued(ttl, period, capacity) <= capacity,
        ttl >= period ==> accrued(ttl, period, capacity) == 0,
{
    let elapsed = period - clamp_ttl(ttl, period);
    assert(0 <= elapsed * capacity <= period * capacity) by (nonlinear_arith)
        requires
            0 <= elapsed <= period,
            capacity > 0,
    ;
    vstd::arithmetic::div_mod::lemma_div_is_ordered(elapsed * capacity, period * capacity, period);
    vstd::arithmetic::div_mod::lemma_div_by_multiple(capacity, period);
    assert(period * capacity == capacity * period) by (nonlinear_arith);
    vstd::arithmetic::div_mod::lemma_div_pos_is_pos(elapsed * capacity, period);
    if ttl >= period {
        assert(elapsed == 0);
        assert(elapsed * capacity == 0) by (nonlinear_arith)
            requires
                elapsed == 0,
        ;
        assert(0int / period == 0);
    }
}

/// Token bucket: after an acceptance that leaves `left` tokens, the next call
/// reads `left` back from the stored text and adds no more than the elapsed
/// time refilled, so what it reports is below `left` plus that refill; when
/// no time has passed (the full time-to-live remains), below `left`.
pub proof fn lemma_token_bucket_next_call(
    capacity: i64,
    period: i64,
    balance: i64,
    units: i64,
    ttl: i64,
    next_units: i64,
)
    requires
        capacity > 0,
        period > 0,
        0 <= balance <= capacity,
        units > 0,
        next_units > 0,
        take_tokens(balance as int, units as int) >= 0,
    ensures
        ({
            let left = take_tokens(balance as int, units as int);
            let refill = accrued(ttl as int, period as int, capacity as int);
            let next = refilled_tokens(left, ttl as int, period as int, capacity as int);
            &&& parsed_i64(decimal_of(left)) == Some(left as i64)
            &&& next <= left + refill
            &&& take_tokens(next, next_units as int) < left + refill
            &&& refilled_tokens(left, period as int, period as int, capacity as int) == left
            &&& take_tokens(
                refilled_tokens(left, period as int, period as int, capacity as int),
                next_units as int,
            ) < left
        }),
{
    let left = take_tokens(balance as int, units as int);
    lemma_decimal_round_trip(left as i64);
    lemma_accrued_bounds(ttl as int, period as int, capacity as int);
    lemma_accrued_bounds(period as int, period as int, capacity as int);
}

/// Leaky bucket: after an acceptance that leaves `room` units of headroom,
/// the next call reads the level back from the stored text, and what it
/// reports is below `room` plus what the elapsed time leaked; when no time
/// has passed, below `room`.
pub proof fn lemma_leaky_bucket_next_call(
    capacity: i64,
    period: i64,
    level: i64,
    units: i64,
    ttl: i64,
    next_units: i64,
)
    requires
        capacity > 0,
        period > 0,
        0 <= level <= capacity,
        units > 0,
        next_units > 0,
        pour_units(level as int, units as int, capacity as int) >= 0,
    ensures
        ({
            let room = pour_units(level as int, units as int, capacity as int);
            let stored = level + units;
            let leak = accrued(ttl as int, period as int, capacity as int);
            let next = leaked_level(stored, ttl as int, period as int, capacity as int);
            &&& parsed_i64(decimal_of(stored)) == Some(stored as i64)
            &&& next >= stored - leak
            &&& pour_units(next, next_units as int, capacity as int) < room + leak
            &&& leaked_level(stored, period as int, period as int, capacity as int) == stored
            &&& pour_units(
                leaked_level(stored, period as int, period as int, capacity as int),
                next_units as int,
                capacity as int,
            ) < room
        }),
{
    let stored = level + units;
    lemma_decimal_round_trip(stored as i64);
    lemma_accrued_bounds(ttl as int, period as int, capacity as int);
    lemma_accrued_bounds(period as int, period as int, capacity as int);
}

/// Fixed window: after an acceptance that leaves `room`, a next call in the
/// same window reads the count back from the stored text and reports less
/// than `room`.
pub proof fn lemma_fixed_window_next_call(
    capacity: i64,
    count: i64,
    units: i64,
    next_units: i64,
)
    requires
        capacity > 0,
        count >= 0,
        units > 0,
        next_units > 0,
        count_hits(count as int, units as int, capacity as int) >= 0,
    ensures
        ({
            let room = count_hits(count as int, units as int, capacity as int);
            let stored = count + units;
            &&& parsed_i64(decimal_of(stored)) == Some(stored as i64)
            &&& count_hits(stored, next_units as int, capacity as int) < room
        }),
{
    lemma_decimal_round_trip((count + units) as i64);
}

/// Sliding window: after an acceptance at `now`, a next call at the same
/// instant finds the window where the acceptance left it, with the usage
/// grown by exactly the accepted units, and reports less than the first call.
pub proof fn lemma_sliding_window_next_call(
    capacity: i64,
    period: i64,
    start: i64,
    current: i64,
    previous: i64,
    now: i64,
    units: i64,
    next_units: i64,
)
    requires
        capacity > 0,
        period > 0,
        0 <= current <= capacity,
        0 <= previous <= capacity,
        units > 0,
        next_units > 0,
        ({
            let (s, c, p) = aligned_state(
                start as int,
                current as int,
                previous as int,
                now as int,
                period as int,
            );
            admit_units(
                effective_usage(c, p, now - s, period as int, capacity as int),
                units as int,
                capacity as int,
            ) >= 0
        }),
    ensures
        ({
            let (s, c, p) = aligned_state(
                start as int,
                current as int,
                previous as int,
                now as int,
                period as int,
            );
            let usage = effective_usage(c, p, now - s, period as int, capacity as int);
            let first = admit_units(usage, units as int, capacity as int);
            let (s2, c2, p2) = aligned_state(s, c + units, p, now as int, period as int);
            let usage2 = effective_usage(c2, p2, now - s2, period as int, capacity as int);
            &&& (s2, c2, p2) == (s, c + units, p)
            &&& usage2 == usage + units
            &&& admit_units(usage2, next_units as int, capacity as int) < first
        }),
{
    let (s, c, p) = aligned_state(
        start as int,
        current as int,
        previous as int,
        now as int,
        period as int,
    );
    let s0 = if start > now || start < 0 {
        now as int
    } else {
        start as int
    };
    let e = now - s0;
    if e >= period {
        let w = e / period as int;
        vstd::arithmetic::div_mod::lemma_fundamental_div_mod(e, period as int);
        vstd::arithmetic::div_mod::lemma_mod_bound(e, period as int);
        vstd::arithmetic::div_mod::lemma_div_pos_is_pos(e, period as int);
        assert(w * period == period * w) by (nonlinear_arith);
        assert(0 <= now - s < period);
    }
    assert(0 <= now - s < period);
    let wp = weighted_previous(p, now - s, period as int);
    let remaining = period - (now - s);
    assert(0 <= p * remaining <= p * period) by (nonlinear_arith)
        requires
            0 <= remaining <= period,
            p >= 0,
    ;
    vstd::arithmetic::div_mod::lemma_div_pos_is_pos(p * remaining, period as int);
    assert(wp >= 0);
}

/// Units a token bucket accepts from `requests` when no time passes between
/// them: each acceptance is stored as text and read back with the full
/// time-to-live remaining.
pub open spec fn token_bucket_run(capacity: int, period: int, balance: int, requests: Seq<i64>) -> int
    decreases requests.len(),
{
    if requests.len() == 0 {
        0
    } else {
        let u = requests[0] as int;
        let left = take_tokens(balance, u);
        if u <= 0 || left < 0 {
            token_bucket_run(capacity, period, balance, requests.drop_first())
        } else {
            match parsed_i64(decimal_of(left)) {
                Some(v) => u + token_bucket_run(
                    capacity,
                    period,
                    refilled_tokens(v as int, period, period, capacity),
                    requests.drop_first(),
                ),
                None => u,
            }
        }
    }
}

/// Token bucket: requests with no time between them are accepted for at most
/// the balance they start from, and so at most the capacity.
pub proof fn lemma_token_bucket_run(capacity: int, period: int, balance: int, requests: Seq<i64>)
    requires
        0 < capacity <= i64::MAX,
        period > 0,
        0 <= balance <= capacity,
    ensures
        token_bucket_run(capacity, period, balance, requests) <= balance,
        token_bucket_run(capacity, period, balance, requests) <= capacity,
    decreases requests.len(),
{
    if requests.len() > 0 {
        let u = requests[0] as int;
        let left = take_tokens(balance, u);
        if u <= 0 || left < 0 {
            lemma_token_bucket_run(capacity, period, balance, requests.drop_first());
        } else {
            lemma_decimal_round_trip(left as i64);
            lemma_accrued_bounds(period, period, capacity);
            lemma_token_bucket_run(capacity, period, left, requests.drop_first());
        }
    }
}

/// Units a leaky bucket accepts from `requests` when no time passes between
/// them, so nothing leaks.
pub open spec fn leaky_bucket_run(capacity: int, period: int, level: int, requests: Seq<i64>) -> int
    decreases requests.len(),
{
    if requests.len() == 0 {
        0
    } else {
        let u = requests[0] as int;
        if u <= 0 || pour_units(level, u, capacity) < 0 {
            leaky_bucket_run(capacity, period, level, requests.drop_first())
        } else {
            match parsed_i64(decimal_of(level + u)) {
                Some(v) => u + leaky_bucket_run(
                    capacity,
                    period,
                    leaked_level(v as int, period, period, capacity),
                    requests.drop_first(),
                ),
                None => u,
            }
        }
    }
}

/// Leaky bucket: requests with no time between them are accepted for at most
/// the room left above the starting level, and so at most the capacity.
pub proof fn lemma_leaky_bucket_run(capacity: int, period: int, level: int, requests: Seq<i64>)
    requires
        0 < capacity <= i64::MAX,
        period > 0,
        0 <= level <= capacity,
    ensures
        leaky_bucket_run(capacity, period, level, requests) <= capacity - level,
        leaky_bucket_run(capacity, period, level, requests) <= capacity,
    decreases requests.len(),
{
    if requests.len() > 0 {
        let u = requests[0] as int;
        if u <= 0 || pour_units(level, u, capacity) < 0 {
            lemma_leaky_bucket_run(capacity, period, level, requests.drop_first());
        } else {
            lemma_decimal_round_trip((level + u) as i64);
            lemma_accrued_bounds(period, period, capacity);
            lemma_leaky_bucket_run(capacity, period, level + u, requests.drop_first());
        }
    }
}

/// Units a fixed window accepts from `requests` within one window: each
/// acceptance is stored as text and read back while the window lasts.
pub open spec fn fixed_window_run(capacity: int, count: int, requests: Seq<i64>) -> int
    decreases requests.len(),
{
    if requests.len() == 0 {
        0
    } else {
        let u = requests[0] as int;
        if u <= 0 || count_hits(count, u, capacity) < 0 {
            fixed_window_run(capacity, count, requests.drop_first())
        } else {
            match parsed_i64(decimal_of(count + u)) {
                Some(v) => u + fixed_window_run(capacity, v as int, requests.drop_first()),
                None => u,
            }
        }
    }
}

/// Fixed window: within one window the accepted units total at most the
/// capacity.
pub proof fn lemma_fixed_window_run(capacity: int, count: int, requests: Seq<i64>)
    requires
        0 < capacity <= i64::MAX,
        count >= 0,
    ensures
        fixed_window_run(capacity, count, requests) <= if count <= capacity {
            capacity - count
        } else {
            0
        },
        fixed_window_run(capacity, count, requests) <= capacity,
    decreases requests.len(),
{
    if requests.len() > 0 {
        let u = requests[0] as int;
        if u <= 0 || count_hits(count, u, capacity) < 0 {
            lemma_fixed_window_run(capacity, count, requests.drop_first());
        } else {
            lemma_decimal_round_trip((count + u) as i64);
            lemma_fixed_window_run(capacity, count + u, requests.drop_first());
        }
    }
}

/// Units a sliding window accepts from `requests` at one instant, `elapsed`
/// milliseconds into its current window.
pub open spec fn sliding_window_run(
    capacity: int,
    period: int,
    elapsed: int,
    current: int,
    previous: int,
    requests: Seq<i64>,
) -> int
    decreases requests.len(),
{
    if requests.len() == 0 {
        0
    } else {
        let u = requests[0] as int;
        let usage = effective_usage(current, previous, elapsed, period, capacity);
        if u <= 0 || admit_units(usage, u, capacity) < 0 {
            sliding_window_run(capacity, period, elapsed, current, previous, requests.drop_first())
        } else {
            u + sliding_window_run(
                capacity,
                period,
                elapsed,
                current + u,
                previous,
                requests.drop_first(),
            )
        }
    }
}

/// Sliding window: requests at one instant are accepted for at most the
/// capacity left by the usage they start from, and so at most the capacity.
pub proof fn lemma_sliding_window_run(
    capacity: int,
    period: int,
    elapsed: int,
    current: int,
    previous: int,
    requests: Seq<i64>,
)
    requires
        capacity > 0,
        0 <= elapsed < period,
        0 <= current <= capacity,
        0 <= previous,
    ensures
        sliding_window_run(capacity, period, elapsed, current, previous, requests) <= capacity
            - effective_usage(current, previous, elapsed, period, capacity),
        sliding_window_run(capacity, period, elapsed, current, previous, requests) <= capacity,
    decreases requests.len(),
{
    let remaining = period - elapsed;
    assert(0 <= previous * remaining) by (nonlinear_arith)
        requires
            0 <= remaining,
            previous >= 0,
    ;
    vstd::arithmetic::div_mod::lemma_div_pos_is_pos(previous * remaining, period);
    if requests.len() > 0 {
        let u = requests[0] as int;
        let usage = effective_usage(current, previous, elapsed, period, capacity);
        if u <= 0 || admit_units(usage, u, capacity) < 0 {
            lemma_sliding_window_run(
                capacity,
                period,
                elapsed,
                current,
                previous,
                requests.drop_first(),
            );
        } else {
            lemma_sliding_window_run(
                capacity,
                period,
                elapsed,
                current + u,
                previous,
                requests.drop_first(),
            );
        }
    }
}

} // verus!
