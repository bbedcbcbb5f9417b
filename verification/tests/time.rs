use scylla_pg::time::Timestamp;

#[test]
fn timestamp_counts_nanoseconds() {
    assert_eq!(Timestamp::from_parts(0, 0), Timestamp { nanos: 0 });
    assert_eq!(Timestamp::from_parts(1, 5), Timestamp { nanos: 1_000_000_005 });
    assert_eq!(Timestamp::from_parts(-1, 999_999_999), Timestamp { nanos: -1 });
    assert_eq!(
        Timestamp::from_parts(i64::MAX, u32::MAX),
        Timestamp { nanos: 9_223_372_036_854_775_807_000_000_000 + 4_294_967_295 }
    );
    assert_eq!(
        Timestamp::from_parts(i64::MIN, 0),
        Timestamp { nanos: -9_223_372_036_854_775_808_000_000_000 }
    );
}

#[test]
fn timestamp_moves_by_seconds() {
    let t = Timestamp::from_parts(10, 1);
    assert_eq!(t.plus_seconds(5), Timestamp { nanos: 15_000_000_001 });
    assert_eq!(t.plus_seconds(-11), Timestamp { nanos: -999_999_999 });
    assert_eq!(t.minus_seconds(5), Timestamp { nanos: 5_000_000_001 });
    assert_eq!(t.minus_seconds(-5), t.plus_seconds(5));
    assert_eq!(
        t.minus_seconds(i64::MIN),
        Timestamp { nanos: 10_000_000_001 + 9_223_372_036_854_775_808_000_000_000 }
    );
    assert_eq!(
        Timestamp::from_parts(i64::MAX, u32::MAX).plus_seconds(i64::MAX),
        Timestamp { nanos: 2 * 9_223_372_036_854_775_807_000_000_000 + 4_294_967_295 }
    );
}

#[test]
fn timestamp_order_is_the_order_of_time() {
    let early = Timestamp::from_parts(1, 0);
    let late = Timestamp::from_parts(1, 1);
    assert!(early.is_before(&late));
    assert!(!late.is_before(&early));
    assert!(!early.is_before(&early));
    assert!(early < late);
}

#[test]
fn clock_reads_the_present() {
    let before = chrono::Utc::now();
    let reading = Timestamp::now();
    let after = chrono::Utc::now();
    let nanos = |t: chrono::DateTime<chrono::Utc>| {
        t.timestamp() as i128 * 1_000_000_000 + t.timestamp_subsec_nanos() as i128
    };
    assert!(nanos(before) <= reading.nanos);
    assert!(reading.nanos <= nanos(after));
}

#[test]
fn timestamp_splits_into_seconds_and_the_rest() {
    assert_eq!(Timestamp { nanos: 0 }.to_parts(), Some((0, 0)));
    assert_eq!(Timestamp { nanos: 1_500_000_000 }.to_parts(), Some((1, 500_000_000)));
    assert_eq!(Timestamp { nanos: -1 }.to_parts(), Some((-1, 999_999_999)));
    assert_eq!(Timestamp { nanos: -1_000_000_000 }.to_parts(), Some((-1, 0)));
    assert_eq!(Timestamp { nanos: -1_000_000_001 }.to_parts(), Some((-2, 999_999_999)));
    let lowest = i64::MIN as i128 * 1_000_000_000;
    let above = (i64::MAX as i128 + 1) * 1_000_000_000;
    assert_eq!(Timestamp { nanos: lowest }.to_parts(), Some((i64::MIN, 0)));
    assert_eq!(Timestamp { nanos: lowest - 1 }.to_parts(), None);
    assert_eq!(Timestamp { nanos: above - 1 }.to_parts(), Some((i64::MAX, 999_999_999)));
    assert_eq!(Timestamp { nanos: above }.to_parts(), None);
    assert_eq!(Timestamp { nanos: i128::MAX }.to_parts(), None);
    assert_eq!(Timestamp { nanos: i128::MIN }.to_parts(), None);
}

#[test]
fn timestamp_is_put_together_from_its_parts() {
    for nanos in [0, 1, -1, 999_999_999, 1_000_000_000, -1_000_000_000, 1_700_000_000_123_456_789] {
        let t = Timestamp { nanos };
        let (secs, rest) = t.to_parts().unwrap();
        assert_eq!(Timestamp::from_parts(secs, rest), t);
    }
    let now = Timestamp::now();
    let (secs, rest) = now.to_parts().unwrap();
    assert_eq!(Timestamp::from_parts(secs, rest), now);
}
