use block_latency::decimal::push_decimal;
use block_latency::recorder::{
    format_delta, process, process_block, Arrival, BlockEvent, ClockReading, LatencyRecord,
    Measurement, Skipped,
};

fn clock(secs: u64) -> Option<ClockReading> {
    Some(ClockReading { secs, millis: secs as u128 * 1000 + 7 })
}

#[test]
fn delta_below_a_minute_is_seconds_only() {
    assert_eq!(format_delta(45), "45s");
    assert_eq!(format_delta(0), "0s");
    assert_eq!(format_delta(59), "59s");
}

#[test]
fn delta_from_a_minute_on_has_minutes_and_seconds() {
    assert_eq!(format_delta(60), "1m0s");
    assert_eq!(format_delta(125), "2m5s");
    assert_eq!(format_delta(3600), "60m0s");
    assert_eq!(format_delta(3725), "62m5s");
}

#[test]
fn delta_of_a_block_from_the_future_is_negative_seconds() {
    assert_eq!(format_delta(-1), "-1s");
    assert_eq!(format_delta(-125), "-125s");
}

#[test]
fn delta_at_the_ends_of_the_range() {
    assert_eq!(format_delta(i128::MIN), format!("{}s", i128::MIN));
    assert_eq!(
        format_delta(i128::MAX),
        format!("{}m{}s", i128::MAX / 60, i128::MAX % 60)
    );
}

#[test]
fn decimal_text_matches_the_standard_formatting() {
    for n in [0u128, 7, 9, 10, 11, 99, 100, 101, 12345, 18446744073709551615, u128::MAX] {
        let mut text = String::from("x");
        push_decimal(&mut text, n);
        assert_eq!(text, format!("x{}", n));
    }
}

#[test]
fn block_with_timestamp_is_measured() {
    let event = BlockEvent { slot: 100, produced_at: Some(1_700_000_000) };
    let now = ClockReading { secs: 1_700_000_005, millis: 1_700_000_005_123 };
    let got = process_block(&event, Some(now));
    assert_eq!(
        got,
        Ok(Measurement {
            record: LatencyRecord { slot: 100, time: 1_700_000_005_123 },
            delta: String::from("5s"),
        })
    );
}

#[test]
fn block_without_timestamp_is_skipped() {
    let event = BlockEvent { slot: 101, produced_at: None };
    assert_eq!(process_block(&event, clock(1_700_000_000)), Err(Skipped::NoTimestamp));
    assert_eq!(process_block(&event, None), Err(Skipped::NoTimestamp));
}

#[test]
fn block_is_skipped_when_the_clock_cannot_be_read() {
    let event = BlockEvent { slot: 102, produced_at: Some(5) };
    assert_eq!(process_block(&event, None), Err(Skipped::ClockUnavailable));
}

#[test]
fn the_two_clock_readings_are_used_independently() {
    let event = BlockEvent { slot: 9, produced_at: Some(100) };
    let now = ClockReading { secs: 170, millis: 999_999 };
    let got = process_block(&event, Some(now)).unwrap();
    assert_eq!(got.delta, "1m10s");
    assert_eq!(got.record, LatencyRecord { slot: 9, time: 999_999 });
}

#[test]
fn receipt_time_is_reduced_to_64_bits() {
    let event = BlockEvent { slot: 1, produced_at: Some(0) };
    let now = ClockReading { secs: 0, millis: (1u128 << 64) + 42 };
    let got = process_block(&event, Some(now)).unwrap();
    assert_eq!(got.record.time, 42);
    let now = ClockReading { secs: 0, millis: u64::MAX as u128 };
    let got = process_block(&event, Some(now)).unwrap();
    assert_eq!(got.record.time, u64::MAX);
}

#[test]
fn age_does_not_overflow_at_the_extremes() {
    let event = BlockEvent { slot: 1, produced_at: Some(i64::MIN) };
    let now = ClockReading { secs: u64::MAX, millis: 0 };
    let got = process_block(&event, Some(now)).unwrap();
    let age = u64::MAX as i128 - i64::MIN as i128;
    assert_eq!(got.delta, format!("{}m{}s", age / 60, age % 60));
    let event = BlockEvent { slot: 1, produced_at: Some(i64::MAX) };
    let now = ClockReading { secs: 0, millis: 0 };
    let got = process_block(&event, Some(now)).unwrap();
    assert_eq!(got.delta, format!("-{}s", i64::MAX));
}

#[test]
fn measurements_keep_the_order_of_arrival() {
    let arrivals = vec![
        Arrival { event: BlockEvent { slot: 3, produced_at: Some(10) }, clock: clock(11) },
        Arrival { event: BlockEvent { slot: 1, produced_at: Some(10) }, clock: clock(12) },
        Arrival { event: BlockEvent { slot: 2, produced_at: Some(10) }, clock: clock(13) },
    ];
    let got = process(&arrivals);
    let slots: Vec<u64> = got.iter().map(|m| m.record.slot).collect();
    assert_eq!(slots, vec![3, 1, 2]);
    let deltas: Vec<&str> = got.iter().map(|m| m.delta.as_str()).collect();
    assert_eq!(deltas, vec!["1s", "2s", "3s"]);
}

#[test]
fn three_events_of_which_one_has_no_timestamp() {
    let now: u64 = 1_700_000_000;
    let arrivals = vec![
        Arrival {
            event: BlockEvent { slot: 100, produced_at: Some(now as i64 - 5) },
            clock: Some(ClockReading { secs: now, millis: now as u128 * 1000 }),
        },
        Arrival {
            event: BlockEvent { slot: 101, produced_at: None },
            clock: Some(ClockReading { secs: now, millis: now as u128 * 1000 + 1 }),
        },
        Arrival {
            event: BlockEvent { slot: 110, produced_at: Some(now as i64 - 70) },
            clock: Some(ClockReading { secs: now, millis: now as u128 * 1000 + 2 }),
        },
    ];
    let got = process(&arrivals);
    assert_eq!(got.len(), 2);
    assert_eq!(got[0].record.slot, 100);
    assert_eq!(got[0].delta, "5s");
    assert_eq!(got[1].record.slot, 110);
    assert_eq!(got[1].delta, "1m10s");
    assert!(got[0].record.time <= got[1].record.time);
}

#[test]
fn no_arrivals_give_no_measurements() {
    assert_eq!(process(&Vec::new()), Vec::new());
}
