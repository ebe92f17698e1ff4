use qpc_time::{
    timestamp_from_qpc, timestamp_from_vulkan, timestamp_now, CounterFrequency, Timestamp,
    NANOS_PER_SECOND,
};

fn frequency(ticks_per_second: u64) -> CounterFrequency {
    CounterFrequency::new(ticks_per_second).unwrap()
}

fn reference(ticks: u64, ticks_per_second: u64) -> u128 {
    ticks as u128 * 1_000_000_000u128 / ticks_per_second as u128
}

#[test]
fn one_second_of_ticks_is_a_billion_nanoseconds() {
    assert_eq!(timestamp_from_qpc(10_000_000, frequency(10_000_000)), 1_000_000_000);
}

#[test]
fn zero_ticks_are_zero_nanoseconds() {
    assert_eq!(timestamp_from_qpc(0, frequency(10_000_000)), 0);
    assert_eq!(timestamp_from_qpc(0, frequency(1)), 0);
}

#[test]
fn single_tick_at_ten_megahertz_is_a_hundred_nanoseconds() {
    assert_eq!(timestamp_from_qpc(1, frequency(10_000_000)), 100);
    assert_eq!(timestamp_from_qpc(123_456_789, frequency(10_000_000)), 12_345_678_900);
}

#[test]
fn both_terms_round_down() {
    // One tick at 3 Hz lasts a third of a second.
    assert_eq!(timestamp_from_qpc(1, frequency(3)), 333_333_333);
    assert_eq!(timestamp_from_qpc(2, frequency(3)), 666_666_666);
    assert_eq!(timestamp_from_qpc(3, frequency(3)), 1_000_000_000);
    assert_eq!(timestamp_from_qpc(4, frequency(3)), 1_333_333_333);
    assert_eq!(timestamp_from_qpc(7, frequency(3)), 2_333_333_333);
}

#[test]
fn conversion_matches_wide_arithmetic() {
    let rates: [u64; 7] = [1, 3, 1_000, 3_579_545, 10_000_000, 24_000_000, 1_000_000_007];
    let readings: [u64; 9] = [
        0,
        1,
        2,
        999,
        10_000_000,
        123_456_789_012,
        9_999_999_999_999,
        1 << 40,
        18_446_744_073,
    ];
    for rate in rates {
        for reading in readings {
            let expected = reference(reading, rate).min(u64::MAX as u128);
            assert_eq!(timestamp_from_qpc(reading, frequency(rate)) as u128, expected);
        }
    }
}

#[test]
fn long_uptime_at_ten_megahertz_stays_exact() {
    // A hundred years of ticks: the product of ticks and a billion leaves the
    // 64-bit range, the result does not.
    let ticks: u64 = 100 * 365 * 24 * 3600 * 10_000_000;
    assert!(ticks.checked_mul(NANOS_PER_SECOND).is_none());
    assert_eq!(timestamp_from_qpc(ticks, frequency(10_000_000)), 3_153_600_000_000_000_000);
    assert_eq!(
        timestamp_from_qpc(ticks + 7, frequency(10_000_000)),
        3_153_600_000_000_000_700
    );
}

#[test]
fn largest_exact_reading_at_ten_megahertz() {
    // u64::MAX nanoseconds are 184_467_440_737_095_516 ticks and 15 ns.
    let rate = frequency(10_000_000);
    assert_eq!(
        timestamp_from_qpc(184_467_440_737_095_516, rate),
        18_446_744_073_709_551_600
    );
    assert_eq!(timestamp_from_qpc(184_467_440_737_095_517, rate), u64::MAX);
}

#[test]
fn very_fast_counter_keeps_the_partial_second_exact() {
    // Above 18.4 GHz the ticks of the partial second times a billion leave
    // the 64-bit range.
    let rate: u64 = 1 << 62;
    let ticks: u64 = (1 << 62) - 1;
    assert!(ticks.checked_mul(NANOS_PER_SECOND).is_none());
    assert_eq!(timestamp_from_qpc(ticks, frequency(rate)), 999_999_999);
    assert_eq!(timestamp_from_qpc(ticks + 1, frequency(rate)), 1_000_000_000);
    assert_eq!(timestamp_from_qpc(u64::MAX, frequency(u64::MAX)), 1_000_000_000);
    assert_eq!(timestamp_from_qpc(u64::MAX - 1, frequency(u64::MAX)), 999_999_999);
    assert_eq!(
        timestamp_from_qpc(u64::MAX, frequency(1 << 63)) as u128,
        reference(u64::MAX, 1 << 63)
    );
}

#[test]
fn later_readings_never_convert_to_earlier_timestamps() {
    let rates: [u64; 4] = [1, 3, 10_000_000, 1 << 62];
    let readings: [u64; 10] = [
        0,
        1,
        2,
        3,
        9_999_999,
        10_000_000,
        10_000_001,
        1 << 50,
        u64::MAX - 1,
        u64::MAX,
    ];
    for rate in rates {
        let mut previous: Timestamp = 0;
        for reading in readings {
            let converted = timestamp_from_qpc(reading, frequency(rate));
            assert!(previous <= converted);
            previous = converted;
        }
    }
}

#[test]
fn full_width_reading_at_three_hertz_is_clamped() {
    // The value in nanoseconds has 28 digits; the largest timestamp stands
    // for it.
    assert!(reference(u64::MAX, 3) > u64::MAX as u128);
    assert_eq!(timestamp_from_qpc(u64::MAX, frequency(3)), u64::MAX);
}

#[test]
fn unrepresentable_values_are_clamped_not_wrapped() {
    assert_eq!(timestamp_from_qpc(u64::MAX, frequency(1)), u64::MAX);
    assert_eq!(timestamp_from_qpc(18_446_744_074, frequency(1)), u64::MAX);
    assert_eq!(
        timestamp_from_qpc(18_446_744_073, frequency(1)),
        18_446_744_073_000_000_000
    );
    // Whole seconds fit, the partial second tips the sum over.
    assert_eq!(
        timestamp_from_qpc(36_893_488_147, frequency(2)),
        18_446_744_073_500_000_000
    );
    assert_eq!(timestamp_from_qpc(36_893_488_148, frequency(2)), u64::MAX);
}

#[test]
fn zero_frequency_is_refused() {
    assert_eq!(CounterFrequency::new(0), None);
    assert_eq!(CounterFrequency::from_native(0), None);
}

#[test]
fn negative_native_frequency_is_refused() {
    assert_eq!(CounterFrequency::from_native(-1), None);
    assert_eq!(CounterFrequency::from_native(i64::MIN), None);
}

#[test]
fn positive_frequencies_are_kept() {
    assert_eq!(CounterFrequency::new(1).unwrap().ticks_per_second(), 1);
    assert_eq!(CounterFrequency::new(u64::MAX).unwrap().ticks_per_second(), u64::MAX);
    assert_eq!(
        CounterFrequency::from_native(10_000_000).unwrap().ticks_per_second(),
        10_000_000
    );
    assert_eq!(
        CounterFrequency::from_native(i64::MAX).unwrap().ticks_per_second(),
        i64::MAX as u64
    );
    assert_eq!(CounterFrequency::from_native(24_000_000), CounterFrequency::new(24_000_000));
}

#[test]
fn device_timestamps_share_the_timebase() {
    let rate = frequency(10_000_000);
    assert_eq!(timestamp_from_vulkan(10_000_000, rate), 1_000_000_000);
    for calibration in [0u64, 1, 77, 10_000_001, 1 << 45, u64::MAX] {
        assert_eq!(timestamp_from_vulkan(calibration, rate), timestamp_from_qpc(calibration, rate));
    }
}

#[test]
fn now_converts_the_counter_reading() {
    let rate = frequency(10_000_000);
    assert_eq!(timestamp_now(0, rate), 0);
    assert_eq!(timestamp_now(10_000_000, rate), 1_000_000_000);
    assert_eq!(timestamp_now(25_000_001, rate), 2_500_000_100);
    assert_eq!(timestamp_now(i64::MAX, frequency(1 << 62)), 1_999_999_999);
}

#[test]
fn now_reads_a_negative_counter_as_its_unsigned_bits() {
    let rate = frequency(1 << 62);
    assert_eq!(timestamp_now(-1, rate), timestamp_from_qpc(u64::MAX, rate));
    assert_eq!(timestamp_now(-1, rate), 3_999_999_999);
    assert_eq!(timestamp_now(i64::MIN, rate), timestamp_from_qpc(1 << 63, rate));
    assert_eq!(timestamp_now(i64::MIN, rate), 2_000_000_000);
    assert_eq!(timestamp_now(-2, frequency(u64::MAX)), 999_999_999);
}

#[test]
fn readings_in_program_order_give_timestamps_in_order() {
    let rate = frequency(10_000_000);
    let mut previous: Timestamp = 0;
    for counter in [0i64, 1, 5, 5, 6, 10_000_000, 10_000_000, 4_000_000_000_000] {
        let now = timestamp_now(counter, rate);
        assert!(previous <= now);
        previous = now;
    }
}
