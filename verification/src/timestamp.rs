use vstd::prelude::*;

verus! {

/// The resolution of the timeline: one second is this many ticks.
///
/// The value is divisible by every common sample rate (8 kHz, 11.025 kHz,
/// 16 kHz, 22.05 kHz, 32 kHz, 44.1 kHz, 48 kHz, 88.2 kHz, 96 kHz, 176.4 kHz,
/// 192 kHz, 352.8 kHz, 384 kHz), so whole sample positions at those rates are
/// represented exactly.
pub const TICKS_PER_SECOND: i64 = 1_411_200_000;

/// A point (or a span) on the audio timeline, held as a whole number of ticks
#[derive(Clone, Copy, Debug)]
pub struct Timestamp {
    ticks: i64,
}

/// Clamps an integer into the range of `i64`
pub open spec fn clamp_ticks(value: int) -> int {
    if value < i64::MIN {
        i64::MIN as int
    } else if value > i64::MAX {
        i64::MAX as int
    } else {
        value
    }
}

/// Clamps a non-negative integer into the range of `usize`
pub open spec fn clamp_usize(value: int) -> int {
    if value > usize::MAX {
        usize::MAX as int
    } else {
        value
    }
}

/// The number of ticks in `samples` samples at `sample_rate`, rounded down
pub open spec fn samples_to_ticks(samples: int, sample_rate: int) -> int {
    samples * TICKS_PER_SECOND / sample_rate
}

/// The number of whole samples that `ticks` spans at `sample_rate`
///
/// Negative spans count as zero samples, and spans beyond `usize` saturate.
pub open spec fn ticks_to_whole_samples(ticks: int, sample_rate: int) -> int {
    if ticks <= 0 {
        0
    } else {
        clamp_usize(ticks * sample_rate / TICKS_PER_SECOND as int)
    }
}

/// The number of samples that `ticks` spans at `sample_rate`, rounded to the
/// nearest whole sample (halves round up)
///
/// Negative spans count as zero samples, and spans beyond `usize` saturate.
pub open spec fn ticks_to_rounded_samples(ticks: int, sample_rate: int) -> int {
    if ticks <= 0 {
        0
    } else {
        clamp_usize((2 * ticks * sample_rate + TICKS_PER_SECOND) / (2 * TICKS_PER_SECOND as int))
    }
}

impl View for Timestamp {
    type V = i64;

    closed spec fn view(&self) -> i64 {
        self.ticks
    }
}

proof fn lemma_product_bound(a: int, b: int, a_max: int, b_max: int)
    by (nonlinear_arith)
    requires
        0 <= a <= a_max,
        0 <= b <= b_max,
    ensures
        0 <= a * b <= a_max * b_max,
{
}

proof fn lemma_div_bound(a: int, d: int)
    by (nonlinear_arith)
    requires
        0 <= a,
        0 < d,
    ensures
        0 <= a / d <= a,
{
}

impl Timestamp {
    /// The start of the timeline
    pub fn zero() -> (timestamp: Self)
        ensures
            timestamp@ == 0,
    {
        Self { ticks: 0 }
    }

    /// Create a timestamp from its raw tick count
    pub fn from_raw_i64(raw: i64) -> (timestamp: Self)
        ensures
            timestamp@ == raw,
    {
        Self { ticks: raw }
    }

    /// The raw tick count of this timestamp
    pub fn as_raw_i64(&self) -> (raw: i64)
        ensures
            raw == self@,
    {
        self.ticks
    }

    /// The time of `samples` whole samples at `sample_rate`, rounded down to
    /// a whole tick
    pub fn from_samples(samples: usize, sample_rate: usize) -> (timestamp: Self)
        requires
            sample_rate > 0,
        ensures
            timestamp@ == clamp_ticks(samples_to_ticks(samples as int, sample_rate as int)),
    {
        let ticks_per_second: u128 = TICKS_PER_SECOND as u128;
        proof {
            lemma_product_bound(samples as int, TICKS_PER_SECOND as int, usize::MAX as int, TICKS_PER_SECOND as int);
        }
        let product: u128 = (samples as u128) * ticks_per_second;
        let ticks: u128 = product / (sample_rate as u128);
        proof {
            lemma_div_bound(product as int, sample_rate as int);
        }
        if ticks > i64::MAX as u128 {
            Self { ticks: i64::MAX }
        } else {
            Self { ticks: ticks as i64 }
        }
    }

    /// The number of whole samples from the start of the timeline to this
    /// timestamp, at `sample_rate`
    ///
    /// Times before the start of the timeline give zero.
    pub fn as_whole_samples(&self, sample_rate: usize) -> (samples: usize)
        ensures
            samples == ticks_to_whole_samples(self@ as int, sample_rate as int),
    {
        if self.ticks <= 0 {
            return 0;
        }
        proof {
            lemma_product_bound(self.ticks as int, sample_rate as int, i64::MAX as int, usize::MAX as int);
        }
        let product: u128 = (self.ticks as u128) * (sample_rate as u128);
        let samples: u128 = product / (TICKS_PER_SECOND as u128);
        if samples > usize::MAX as u128 {
            usize::MAX
        } else {
            samples as usize
        }
    }

    /// The number of samples from the start of the timeline to this timestamp,
    /// at `sample_rate`, rounded to the nearest whole sample
    ///
    /// Times before the start of the timeline give zero.
    pub fn as_rounded_samples(&self, sample_rate: usize) -> (samples: usize)
        ensures
            samples == ticks_to_rounded_samples(self@ as int, sample_rate as int),
    {
        if self.ticks <= 0 {
            return 0;
        }
        proof {
            lemma_product_bound(self.ticks as int, sample_rate as int, i64::MAX as int, usize::MAX as int);
            assert(2 * (i64::MAX as int) * (usize::MAX as int) + TICKS_PER_SECOND < u128::MAX) by (nonlinear_arith);
        }
        let product: u128 = (self.ticks as u128) * (sample_rate as u128);
        let doubled: u128 = 2 * product + TICKS_PER_SECOND as u128;
        assert(2 * (self.ticks as int) * (sample_rate as int) == 2 * (product as int)) by (nonlinear_arith)
            requires product as int == (self.ticks as int) * (sample_rate as int);
        let samples: u128 = doubled / (2 * TICKS_PER_SECOND as u128);
        if samples > usize::MAX as u128 {
            usize::MAX
        } else {
            samples as usize
        }
    }

    /// This timestamp moved later by `samples` samples at `sample_rate`
    pub fn incremented_by_samples(&self, samples: usize, sample_rate: usize) -> (timestamp: Self)
        requires
            sample_rate > 0,
        ensures
            timestamp@ == clamp_ticks(
                self@ + clamp_ticks(samples_to_ticks(samples as int, sample_rate as int)),
            ),
    {
        let offset = Self::from_samples(samples, sample_rate);
        self.plus(offset)
    }

    /// The sum of two timestamps, saturating at the ends of the timeline
    pub fn plus(&self, other: Self) -> (timestamp: Self)
        ensures
            timestamp@ == clamp_ticks(self@ + other@),
    {
        let sum: i128 = self.ticks as i128 + other.ticks as i128;
        Self { ticks: Self::clamp(sum) }
    }

    /// The difference of two timestamps, saturating at the ends of the
    /// timeline
    pub fn minus(&self, other: Self) -> (timestamp: Self)
        ensures
            timestamp@ == clamp_ticks(self@ - other@),
    {
        let difference: i128 = self.ticks as i128 - other.ticks as i128;
        Self { ticks: Self::clamp(difference) }
    }

    /// This span repeated `count` times, saturating at the ends of the
    /// timeline
    pub fn multiplied_by(&self, count: usize) -> (timestamp: Self)
        ensures
            timestamp@ == clamp_ticks(self@ * count),
    {
        let ticks: i128 = self.ticks as i128;
        let count_wide: i128 = count as i128;
        proof {
            assert(-0x8000_0000_0000_0000_0000_0000_0000_0000 < (i64::MIN as int) * (usize::MAX as int)) by (nonlinear_arith);
            assert((i64::MAX as int) * (usize::MAX as int) < 0x7fff_ffff_ffff_ffff_ffff_ffff_ffff_ffff) by (nonlinear_arith);
            if ticks >= 0 {
                lemma_product_bound(ticks as int, count as int, i64::MAX as int, usize::MAX as int);
            } else {
                lemma_product_bound(-(ticks as int), count as int, -(i64::MIN as int), usize::MAX as int);
                assert((-(ticks as int)) * (count as int) == -((ticks as int) * (count as int))) by (nonlinear_arith);
            }
        }
        let product: i128 = ticks * count_wide;
        Self { ticks: Self::clamp(product) }
    }

    /// Whether this timestamp is strictly before `other`
    pub fn is_before(&self, other: &Self) -> (before: bool)
        ensures
            before == (self@ < other@),
    {
        self.ticks < other.ticks
    }

    /// Whether two timestamps are the same point on the timeline
    pub fn same_as(&self, other: &Self) -> (same: bool)
        ensures
            same == (self@ == other@),
    {
        self.ticks == other.ticks
    }

    /// The later of two timestamps
    pub fn latest(a: Self, b: Self) -> (timestamp: Self)
        ensures
            timestamp@ == if a@ < b@ { b@ } else { a@ },
    {
        if a.ticks < b.ticks {
            b
        } else {
            a
        }
    }

    /// The earlier of two timestamps
    pub fn earliest(a: Self, b: Self) -> (timestamp: Self)
        ensures
            timestamp@ == if a@ < b@ { a@ } else { b@ },
    {
        if a.ticks < b.ticks {
            a
        } else {
            b
        }
    }

    fn clamp(value: i128) -> (ticks: i64)
        ensures
            ticks == clamp_ticks(value as int),
    {
        if value < i64::MIN as i128 {
            i64::MIN
        } else if value > i64::MAX as i128 {
            i64::MAX
        } else {
            value as i64
        }
    }
}

/// Adding a span and then taking it away again gives back the time it started from,
/// when the sum stays within the timeline
pub proof fn law_plus_then_minus(a: i64, b: i64)
    requires
        i64::MIN <= a + b <= i64::MAX,
    ensures
        clamp_ticks(clamp_ticks(a + b) - b) == a,
{
}

/// At a sample rate that divides a second's ticks exactly, a whole number of
/// samples converts to ticks and back without loss, both rounded down and
/// rounded to the nearest sample
pub proof fn law_samples_round_trip(samples: int, sample_rate: int)
    requires
        0 < sample_rate,
        TICKS_PER_SECOND as int % sample_rate == 0,
        0 <= samples <= usize::MAX,
        samples_to_ticks(samples, sample_rate) <= i64::MAX,
    ensures
        ticks_to_whole_samples(clamp_ticks(samples_to_ticks(samples, sample_rate)), sample_rate) == samples,
        ticks_to_rounded_samples(clamp_ticks(samples_to_ticks(samples, sample_rate)), sample_rate) == samples,
{
    let t = TICKS_PER_SECOND as int;
    let k = t / sample_rate;
    assert(t == k * sample_rate) by (nonlinear_arith)
        requires
            0 < sample_rate,
            t % sample_rate == 0,
            k == t / sample_rate,
    ;
    assert(samples * t / sample_rate == samples * k) by (nonlinear_arith)
        requires
            0 < sample_rate,
            t == k * sample_rate,
    ;
    let ticks = samples * k;
    assert(0 <= k) by (nonlinear_arith)
        requires
            0 < sample_rate,
            0 < t,
            k == t / sample_rate,
    ;
    assert(ticks >= 0) by (nonlinear_arith)
        requires
            0 <= samples,
            0 <= k,
            ticks == samples * k,
    ;
    assert(ticks * sample_rate == samples * t) by (nonlinear_arith)
        requires
            ticks == samples * k,
            t == k * sample_rate,
    ;
    assert(samples * t / t == samples) by (nonlinear_arith)
        requires
            0 < t,
    ;
    assert((2 * (samples * t) + t) / (2 * t) == samples) by (nonlinear_arith)
        requires
            0 < t,
            0 <= samples,
    ;
    assert(2 * ticks * sample_rate == 2 * (samples * t)) by (nonlinear_arith)
        requires
            ticks * sample_rate == samples * t,
    ;
}

/// Moving a time later by more samples never gives an earlier time
pub proof fn law_increment_is_monotonic(time: i64, fewer: int, more: int, sample_rate: int)
    requires
        0 < sample_rate,
        0 <= fewer <= more,
    ensures
        clamp_ticks(time + clamp_ticks(samples_to_ticks(fewer, sample_rate)))
            <= clamp_ticks(time + clamp_ticks(samples_to_ticks(more, sample_rate))),
{
    let t = TICKS_PER_SECOND as int;
    assert(fewer * t <= more * t) by (nonlinear_arith)
        requires
            0 <= fewer <= more,
            0 < t,
    ;
    vstd::arithmetic::div_mod::lemma_div_is_ordered(fewer * t, more * t, sample_rate);
}

} // verus!
