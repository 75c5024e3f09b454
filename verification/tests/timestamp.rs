use rawdio::{Timestamp, TICKS_PER_SECOND};

#[test]
fn a_second_of_samples_is_a_second_of_ticks() {
    assert_eq!(Timestamp::from_samples(48_000, 48_000).as_raw_i64(), TICKS_PER_SECOND);
    assert_eq!(Timestamp::from_samples(44_100, 44_100).as_raw_i64(), TICKS_PER_SECOND);
}

#[test]
fn one_sample_at_48k_is_29400_ticks() {
    assert_eq!(Timestamp::from_samples(1, 48_000).as_raw_i64(), 29_400);
    assert_eq!(Timestamp::from_samples(1, 44_100).as_raw_i64(), 32_000);
    assert_eq!(Timestamp::from_samples(1, 384_000).as_raw_i64(), 3_675);
}

#[test]
fn samples_round_trip_at_common_rates() {
    for sample_rate in [8_000, 11_025, 16_000, 22_050, 32_000, 44_100, 48_000, 88_200, 96_000, 176_400, 192_000, 352_800, 384_000] {
        for samples in [0, 1, 7, 1_000, 123_456] {
            let time = Timestamp::from_samples(samples, sample_rate);
            assert_eq!(time.as_whole_samples(sample_rate), samples);
            assert_eq!(time.as_rounded_samples(sample_rate), samples);
        }
    }
}

#[test]
fn whole_samples_round_down_and_rounded_samples_round_to_nearest() {
    let sample_rate = 48_000;
    let almost_two = Timestamp::from_raw_i64(2 * 29_400 - 1);
    assert_eq!(almost_two.as_whole_samples(sample_rate), 1);
    assert_eq!(almost_two.as_rounded_samples(sample_rate), 2);
    let a_bit_over_one = Timestamp::from_raw_i64(29_400 + 100);
    assert_eq!(a_bit_over_one.as_rounded_samples(sample_rate), 1);
}

#[test]
fn times_before_the_start_give_zero_samples() {
    let before = Timestamp::from_raw_i64(-1_000_000);
    assert_eq!(before.as_whole_samples(48_000), 0);
    assert_eq!(before.as_rounded_samples(48_000), 0);
}

#[test]
fn plus_then_minus_gives_back_the_time() {
    let a = Timestamp::from_raw_i64(123_456_789);
    let b = Timestamp::from_raw_i64(-987_654);
    assert_eq!(a.plus(b).minus(b).as_raw_i64(), a.as_raw_i64());
    assert_eq!(a.minus(b).plus(b).as_raw_i64(), a.as_raw_i64());
}

#[test]
fn arithmetic_saturates_at_the_ends_of_the_timeline() {
    let end = Timestamp::from_raw_i64(i64::MAX);
    let start = Timestamp::from_raw_i64(i64::MIN);
    assert_eq!(end.plus(Timestamp::from_raw_i64(1)).as_raw_i64(), i64::MAX);
    assert_eq!(start.minus(Timestamp::from_raw_i64(1)).as_raw_i64(), i64::MIN);
    assert_eq!(end.multiplied_by(3).as_raw_i64(), i64::MAX);
    assert_eq!(Timestamp::from_samples(usize::MAX, 1).as_raw_i64(), i64::MAX);
    assert_eq!(end.incremented_by_samples(1, 48_000).as_raw_i64(), i64::MAX);
}

#[test]
fn incrementing_by_more_samples_is_later() {
    let time = Timestamp::from_raw_i64(1_000);
    let mut previous = time;
    for samples in 1..100 {
        let next = time.incremented_by_samples(samples, 44_100);
        assert!(previous.is_before(&next));
        previous = next;
    }
}

#[test]
fn multiplied_by_scales_the_span() {
    let span = Timestamp::from_samples(3, 48_000);
    assert_eq!(span.multiplied_by(4).as_raw_i64(), Timestamp::from_samples(12, 48_000).as_raw_i64());
    assert_eq!(span.multiplied_by(0).as_raw_i64(), 0);
}

#[test]
fn latest_and_earliest_pick_the_right_time() {
    let a = Timestamp::from_raw_i64(5);
    let b = Timestamp::from_raw_i64(9);
    assert_eq!(Timestamp::latest(a, b).as_raw_i64(), 9);
    assert_eq!(Timestamp::earliest(a, b).as_raw_i64(), 5);
    assert!(a.is_before(&b));
    assert!(!b.is_before(&a));
    assert!(a.same_as(&Timestamp::from_raw_i64(5)));
    assert_eq!(Timestamp::zero().as_raw_i64(), 0);
}
