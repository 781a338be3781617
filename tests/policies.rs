use redis_shield::algorithm::fixed_window::FixedWindow;
use redis_shield::algorithm::leaky_bucket::LeakyBucket;
use redis_shield::algorithm::sliding_window::{
    current_time_millis, decode_state, encode_state, time_field, SlidingWindow,
};
use redis_shield::bucket::Bucket;
use redis_shield::error::ShieldError;
use redis_shield::storage::{accrued_since_write, check_limits, read_stored_integer, StoreWrite};
use redis_shield::traffic_policy::{
    build_key, create_executor, Executor, KeyBuffer, PolicyConfig, TrafficPolicyExecutor,
};

#[test]
fn token_bucket_refill_formula() {
    // 45 s of a 60 s period elapsed refills 30 * 45000 / 60000 = 22 tokens.
    let b = Bucket::new(30, 60, 15_000, Some("3")).unwrap();
    assert_eq!(b.tokens, 25);
    assert_eq!(b.period, 60_000);
    assert!(b.write.is_none());
    // Capped at the capacity.
    let b = Bucket::new(30, 60, 15_000, Some("20")).unwrap();
    assert_eq!(b.tokens, 30);
    // A negative stored balance counts as zero.
    let b = Bucket::new(30, 60, 60_000, Some("-7")).unwrap();
    assert_eq!(b.tokens, 0);
    // Stored balance above a new, smaller capacity is clamped.
    let b = Bucket::new(5, 60, 60_000, Some("20")).unwrap();
    assert_eq!(b.tokens, 5);
}

#[test]
fn token_bucket_pour() {
    let mut b = Bucket::new(10, 1, 1000, Some("4")).unwrap();
    assert_eq!(b.pour(5), Ok(-1));
    assert!(b.write.is_none());
    assert_eq!(b.tokens, 4);
    assert_eq!(b.pour(0), Err(ShieldError::TokensNotPositive));
    assert_eq!(b.pour(3), Ok(1));
    assert_eq!(b.write, Some(StoreWrite::WithTtl { ttl_ms: 1000, value: "1".to_string() }));
}

#[test]
fn token_bucket_errors() {
    assert!(matches!(Bucket::new(0, 1, 0, None), Err(ShieldError::CapacityNotPositive)));
    assert!(matches!(Bucket::new(1, 0, 0, None), Err(ShieldError::PeriodNotPositive)));
    assert!(matches!(
        Bucket::new(1, i64::MAX / 1000 + 1, 0, None),
        Err(ShieldError::PeriodTooLarge)
    ));
    assert!(matches!(Bucket::new(1, 1, 500, Some("x")), Err(ShieldError::InvalidTokenCount)));
    assert!(Bucket::new(1, i64::MAX / 1000, 0, None).is_ok());
}

#[test]
fn leaky_bucket_leak_formula() {
    // 1.5 s of a 2 s period leaks 5 * 1500 / 2000 = 3 units.
    let b = LeakyBucket::new(5, 2, 500, Some("4")).unwrap();
    assert_eq!(b.level, 1);
    // The level never goes below zero.
    let b = LeakyBucket::new(5, 2, -2, Some("4")).unwrap();
    assert_eq!(b.level, 0);
    assert!(matches!(LeakyBucket::new(5, 2, 500, Some("4.5")), Err(ShieldError::InvalidBucketLevel)));
    assert_eq!(ShieldError::InvalidBucketLevel.message(), "ERR invalid bucket level in Redis");
}

#[test]
fn leaky_bucket_add() {
    let mut b = LeakyBucket::new(5, 2, 2000, Some("1")).unwrap();
    assert_eq!(b.add(5), Ok(-1));
    assert!(b.write.is_none());
    assert_eq!(b.add(-1), Err(ShieldError::TokensNotPositive));
    assert_eq!(b.add(4), Ok(0));
    assert_eq!(b.write, Some(StoreWrite::WithTtl { ttl_ms: 2000, value: "5".to_string() }));
}

#[test]
fn fixed_window_load_and_consume() {
    // A nearly expired window counts as a new one, and its text is not read.
    let w = FixedWindow::new(3, 1, 1, Some("garbage")).unwrap();
    assert!(!w.has_active_window);
    assert_eq!(w.count, 0);
    assert!(matches!(FixedWindow::new(3, 1, 2, Some("garbage")), Err(ShieldError::InvalidWindowCounter)));
    assert_eq!(
        ShieldError::InvalidWindowCounter.message(),
        "ERR invalid fixed window counter in Redis"
    );

    let mut w = FixedWindow::new(3, 1, 500, Some("1")).unwrap();
    assert!(w.has_active_window);
    assert_eq!(w.consume(3), Ok(-1));
    assert!(w.write.is_none());
    assert_eq!(w.consume(2), Ok(0));
    assert_eq!(w.write, Some(StoreWrite::KeepTtl { value: "3".to_string() }));

    let mut w = FixedWindow::new(3, 1, -2, None).unwrap();
    assert_eq!(w.consume(1), Ok(2));
    assert_eq!(w.write, Some(StoreWrite::WithTtl { ttl_ms: 1000, value: "1".to_string() }));
    assert!(w.has_active_window);
}

#[test]
fn fixed_window_count_above_capacity_denies() {
    let mut w = FixedWindow::new(3, 1, 500, Some("10")).unwrap();
    assert_eq!(w.count, 10);
    assert_eq!(w.consume(1), Ok(-1));
}

#[test]
fn sliding_window_alignment() {
    // One whole window later the current count becomes the previous one.
    let mut w = SlidingWindow::new(10, 2, 10_000, Some("7000:4:9")).unwrap();
    assert_eq!((w.current_start, w.current_count, w.previous_count), (9000, 0, 4));
    // 1000 ms into the window, half the previous count still weighs.
    assert_eq!(w.effective_usage(1000), 2);
    assert_eq!(w.align_to_now(10_000), 1000);
    // Two or more windows later both counts are dropped.
    let w = SlidingWindow::new(10, 2, 10_000, Some("5000:4:9")).unwrap();
    assert_eq!((w.current_start, w.current_count, w.previous_count), (9000, 0, 0));
    // A start in the future, and counts out of range, are clamped.
    let w = SlidingWindow::new(10, 2, 10_000, Some("20000:40:-3")).unwrap();
    assert_eq!((w.current_start, w.current_count, w.previous_count), (10_000, 10, 0));
    // Text that is no state starts afresh.
    let w = SlidingWindow::new(10, 2, 10_000, Some("1:2")).unwrap();
    assert_eq!((w.current_start, w.current_count, w.previous_count), (10_000, 0, 0));
}

#[test]
fn sliding_window_consume() {
    let mut w = SlidingWindow::new(4, 2, 10_000, Some("9000:1:4")).unwrap();
    // Usage at 10500 ms: 1 + 4 * 500 / 2000 = 2.
    assert_eq!(w.consume(3, 10_500), Ok(-1));
    assert!(w.write.is_none());
    assert_eq!(w.consume(2, 10_500), Ok(0));
    assert_eq!(w.write, Some(StoreWrite::WithTtl { ttl_ms: 4000, value: "9000:3:4".to_string() }));
    assert_eq!(w.consume(0, 10_500), Err(ShieldError::TokensNotPositive));
}

#[test]
fn sliding_window_ttl_saturates() {
    let period = i64::MAX / 1000;
    let mut w = SlidingWindow::new(4, period, 0, None).unwrap();
    assert_eq!(w.consume(1, 0), Ok(3));
    match &w.write {
        Some(StoreWrite::WithTtl { ttl_ms, .. }) => assert_eq!(*ttl_ms, i64::MAX),
        other => panic!("unexpected write {:?}", other),
    }
}

#[test]
fn state_text_round_trip() {
    let text = encode_state(1_700_000_000_123, 5, 0);
    assert_eq!(text, "1700000000123:5:0");
    assert_eq!(decode_state(&text), Some((1_700_000_000_123, 5, 0)));
    let text = encode_state(i64::MIN, -1, i64::MAX);
    assert_eq!(decode_state(&text), Some((i64::MIN, -1, i64::MAX)));
    assert_eq!(decode_state("1:2:3:4"), None);
    assert_eq!(decode_state("1:2:"), None);
    assert_eq!(decode_state("12"), None);
    assert_eq!(decode_state("+1:-2:3"), Some((1, -2, 3)));
}

#[test]
fn clock_reading() {
    assert_eq!(current_time_millis(1_700_000_000, 123_999), Ok(1_700_000_000_123));
    assert_eq!(current_time_millis(i64::MAX, 0), Err(ShieldError::TimeUnavailable));
    assert_eq!(current_time_millis(-1, -1500), Ok(-1001));
    assert_eq!(time_field("42"), Ok(42));
    assert_eq!(time_field("x"), Err(ShieldError::TimeUnavailable));
    assert_eq!(ShieldError::TimeUnavailable.message(), "ERR unable to fetch Redis time");
}

#[test]
fn limits_and_accrual() {
    assert_eq!(check_limits(1, 2), Ok(2000));
    assert_eq!(check_limits(1, i64::MAX / 1000 + 1), Err(ShieldError::PeriodTooLarge));
    assert_eq!(accrued_since_write(-1, 60_000, 30), 30);
    assert_eq!(accrued_since_write(90_000, 60_000, 30), 0);
    assert_eq!(accrued_since_write(20_000, 60_000, 30), 20);
    assert_eq!(accrued_since_write(0, i64::MAX, i64::MAX), i64::MAX);
    assert_eq!(read_stored_integer(None), Some(0));
    assert_eq!(read_stored_integer(Some("-12")), Some(-12));
    assert_eq!(read_stored_integer(Some("")), None);
}

#[test]
fn keys_are_namespaced() {
    let suffixes: Vec<&str> = [
        PolicyConfig::TokenBucket { capacity: 1, period: 1 },
        PolicyConfig::LeakyBucket { capacity: 1, period: 1 },
        PolicyConfig::FixedWindow { capacity: 1, period: 1 },
        PolicyConfig::SlidingWindow { capacity: 1, period: 1 },
    ]
    .iter()
    .map(|c| c.suffix())
    .collect();
    assert_eq!(suffixes, vec!["tb", "lb", "fw", "sw"]);
    assert_eq!(build_key("user", "sw").as_str(), "tp:sw:user");
}

#[test]
fn long_keys_go_to_the_heap() {
    let fits = "k".repeat(122);
    let key = build_key(&fits, "tb");
    assert!(matches!(key, KeyBuffer::Stack(_)));
    assert_eq!(key.as_str().len(), 128);
    let too_long = "k".repeat(123);
    let key = build_key(&too_long, "tb");
    assert!(matches!(key, KeyBuffer::Heap(_)));
    assert_eq!(key.as_str(), format!("tp:tb:{}", too_long));
    // Multi-byte characters count by their bytes.
    let wide = "é".repeat(61);
    assert!(matches!(build_key(&wide, "tb"), KeyBuffer::Stack(_)));
    let wide = "é".repeat(62);
    assert!(matches!(build_key(&wide, "tb"), KeyBuffer::Heap(_)));
    assert_eq!(build_key(&wide, "tb").as_str(), format!("tp:tb:{}", wide));
}

#[test]
fn executor_dispatch() {
    let mut e = create_executor(PolicyConfig::LeakyBucket { capacity: 5, period: 2 }, -2, None, None)
        .unwrap();
    assert!(matches!(e, Executor::LeakyBucket(_)));
    assert_eq!(e.take_write(), None);
    assert_eq!(e.execute(2), Ok(3));
    assert_eq!(e.take_write(), Some(StoreWrite::WithTtl { ttl_ms: 2000, value: "2".to_string() }));
    assert_eq!(e.take_write(), None);

    let r = create_executor(PolicyConfig::SlidingWindow { capacity: 5, period: 2 }, -2, None, None);
    assert!(matches!(r, Err(ShieldError::TimeUnavailable)));
    let r = create_executor(PolicyConfig::SlidingWindow { capacity: 0, period: 2 }, -2, None, None);
    assert!(matches!(r, Err(ShieldError::CapacityNotPositive)));
    let mut e =
        create_executor(PolicyConfig::SlidingWindow { capacity: 5, period: 2 }, -2, None, Some(100))
            .unwrap();
    assert_eq!(e.execute(5), Ok(0));
    assert_eq!(e.execute(1), Ok(-1));
}

#[test]
fn remaining_stays_in_range() {
    for units in 1..=12 {
        let mut b = Bucket::new(10, 5, 2500, Some("3")).unwrap();
        let r = b.execute(units).unwrap();
        assert!(r == -1 || (0..=10).contains(&r));
        let mut l = LeakyBucket::new(10, 5, 2500, Some("3")).unwrap();
        let r = l.execute(units).unwrap();
        assert!(r == -1 || (0..=10).contains(&r));
        let mut f = FixedWindow::new(10, 5, 2500, Some("3")).unwrap();
        let r = f.execute(units).unwrap();
        assert!(r == -1 || (0..=10).contains(&r));
        let mut s = SlidingWindow::new(10, 5, 7000, Some("5000:3:6")).unwrap();
        let r = s.execute(units).unwrap();
        assert!(r == -1 || (0..=10).contains(&r));
    }
}

#[test]
fn next_call_reports_no_more() {
    // An acceptance, read back with no time elapsed, leaves less for the next call.
    let mut b = Bucket::new(10, 5, -2, None).unwrap();
    let first = b.pour(3).unwrap();
    let stored = match &b.write {
        Some(StoreWrite::WithTtl { ttl_ms, value }) => (*ttl_ms, value.clone()),
        _ => panic!("expected a write"),
    };
    let mut again = Bucket::new(10, 5, stored.0, Some(&stored.1)).unwrap();
    assert_eq!(again.tokens, first);
    assert!(again.pour(1).unwrap() < first);
}

#[test]
fn accepted_units_stay_within_capacity() {
    // Requests at one instant on a fixed window accept at most the capacity.
    let mut count_text: Option<String> = None;
    let mut accepted = 0;
    for units in [4, 3, 2, 5, 1, 1] {
        let ttl = if count_text.is_some() { 1000 } else { -2 };
        let mut w = FixedWindow::new(8, 1, ttl, count_text.as_deref()).unwrap();
        if w.consume(units).unwrap() >= 0 {
            accepted += units;
            if let Some(StoreWrite::KeepTtl { value } | StoreWrite::WithTtl { value, .. }) = w.write {
                count_text = Some(value);
            }
        }
    }
    assert_eq!(accepted, 8);
}
