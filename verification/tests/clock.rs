use sendspin_vst3::clock::{
    saturating_difference, saturating_sum, shift_instant_by_micros, unix_micros_from,
    unix_time_micros, MonotonicInstant, TimeAnchor,
};

#[test]
fn unix_time_is_current() {
    let before = std::time::SystemTime::now()
        .duration_since(std::time::UNIX_EPOCH)
        .expect("a time after the epoch")
        .as_micros() as i64;
    let now = unix_time_micros();
    assert!(now >= before && now < before + 60_000_000);
}

#[test]
fn unix_time_before_the_epoch_is_zero() {
    assert_eq!(unix_micros_from(None), 0);
    assert_eq!(unix_micros_from(Some(0)), 0);
    assert_eq!(unix_micros_from(Some(1_700_000_000_000_000)), 1_700_000_000_000_000);
    assert_eq!(unix_micros_from(Some(u128::from(u64::MAX))), -1);
}

#[test]
fn anchor_pairs_the_clocks() {
    let anchor = TimeAnchor::capture_now(MonotonicInstant { nanos: 5_000 });
    assert_eq!(anchor.instant, MonotonicInstant { nanos: 5_000 });
    assert!(anchor.unix_micros > 1_600_000_000_000_000);
    assert_eq!(anchor.instant_to_unix_micros(anchor.instant), anchor.unix_micros);
}

#[test]
fn anchor_counts_whole_microseconds_both_ways() {
    let anchor = TimeAnchor { instant: MonotonicInstant { nanos: 10_000 }, unix_micros: 100 };
    assert_eq!(anchor.instant_to_unix_micros(MonotonicInstant { nanos: 12_999 }), 102);
    assert_eq!(anchor.instant_to_unix_micros(MonotonicInstant { nanos: 7_001 }), 98);
    assert_eq!(anchor.instant_to_unix_micros(MonotonicInstant { nanos: 9_999 }), 100);
}

#[test]
fn anchor_saturates() {
    let late = TimeAnchor { instant: MonotonicInstant { nanos: 0 }, unix_micros: i64::MAX - 1 };
    assert_eq!(late.instant_to_unix_micros(MonotonicInstant { nanos: 9_000 }), i64::MAX);
    let early = TimeAnchor { instant: MonotonicInstant { nanos: 9_000 }, unix_micros: i64::MIN };
    assert_eq!(early.instant_to_unix_micros(MonotonicInstant { nanos: 0 }), i64::MIN);
}

#[test]
fn instants_shift_and_stay_where_they_cannot() {
    let base = MonotonicInstant { nanos: 10_000 };
    assert_eq!(shift_instant_by_micros(base, 3).nanos, 13_000);
    assert_eq!(shift_instant_by_micros(base, -10).nanos, 0);
    assert_eq!(shift_instant_by_micros(base, -11), base);
    assert_eq!(shift_instant_by_micros(shift_instant_by_micros(base, 7), -7), base);
}

#[test]
fn sums_saturate_like_std() {
    for a in [i64::MIN, -1, 0, 5, i64::MAX] {
        for b in [i64::MIN, -7, 0, 1, i64::MAX] {
            assert_eq!(saturating_sum(a, b), a.saturating_add(b));
            assert_eq!(saturating_difference(a, b), a.saturating_sub(b));
        }
    }
}

#[test]
fn anchor_keeps_the_order_of_instants() {
    let anchor = TimeAnchor { instant: MonotonicInstant { nanos: 5_500 }, unix_micros: 0 };
    let mut last = i64::MIN;
    for nanos in (0..12_000).step_by(250) {
        let micros = anchor.instant_to_unix_micros(MonotonicInstant { nanos });
        assert!(micros >= last);
        last = micros;
    }
    assert_eq!(last, 6);
}

#[test]
fn anchor_holds_what_it_is_given() {
    let now = MonotonicInstant { nanos: 42 };
    let anchor = TimeAnchor::at(now, -7);
    assert_eq!((anchor.instant, anchor.unix_micros), (now, -7));
}
