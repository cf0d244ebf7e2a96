//! Derivation of the displayed statistics: rounding of raw telemetry
//! readings, the aggregate CPU mean, the memory-usage ratio, the progress
//! fraction, and the completion throughput and score.
//!
//! Percentages are carried as integers: a raw reading in thousandths of a
//! percent (milli-percent), a stored or displayed value in hundredths of a
//! percent (centi-percent).

use vstd::prelude::*;
use vstd::arithmetic::div_mod::lemma_div_is_ordered;
use vstd::arithmetic::div_mod::lemma_div_multiples_vanish;
use vstd::arithmetic::div_mod::lemma_multiply_divide_lt;
use vstd::arithmetic::mul::lemma_mul_inequality;
use vstd::arithmetic::mul::lemma_mul_is_commutative;
use vstd::math::min;

verus! {

/// One logical core's raw telemetry reading.
#[derive(Clone, Copy, PartialEq, Eq, Structural, Debug)]
pub struct CoreReading {
    /// Usage in thousandths of a percent.
    pub usage_milli: u32,
    /// Current frequency in MHz.
    pub frequency_mhz: u64,
}

/// A raw reading in milli-percent, rounded to the nearest centi-percent,
/// halves away from zero.
pub open spec fn spec_round_centi(milli: int) -> int {
    (milli + 5) / 10
}

/// Rounds a raw milli-percent reading to the centi-percent value that is
/// stored and displayed.
pub fn round_milli_to_centi(milli: u32) -> (c: u32)
    ensures
        c == spec_round_centi(milli as int),
{
    let wide: u64 = (milli as u64 + 5) / 10;
    wide as u32
}

/// The sum of the raw usage readings of a list of cores, in milli-percent.
pub open spec fn spec_sum_milli(readings: Seq<CoreReading>) -> int
    decreases readings.len(),
{
    if readings.len() == 0 {
        0
    } else {
        spec_sum_milli(readings.drop_last()) + readings.last().usage_milli
    }
}

/// The aggregate CPU usage: the mean of the per-core readings, in
/// milli-percent. A platform reporting no cores yields zero rather than a
/// failed query.
pub open spec fn spec_mean_milli(readings: Seq<CoreReading>) -> int {
    if readings.len() == 0 {
        0
    } else {
        spec_sum_milli(readings) / (readings.len() as int)
    }
}

/// Computes the mean of the per-core usage readings, in milli-percent.
pub fn mean_usage_milli(readings: &Vec<CoreReading>) -> (m: u32)
    ensures
        m == spec_mean_milli(readings@),
{
    if readings.len() == 0 {
        return 0;
    }
    let mut sum: u128 = 0;
    let mut i: usize = 0;
    while i < readings.len()
        invariant
            0 <= i <= readings@.len(),
            sum == spec_sum_milli(readings@.take(i as int)),
            sum <= (i as int) * (u32::MAX as int),
        decreases readings@.len() - i,
    {
        proof {
            lemma_mul_inequality(i as int, i as int + 1, u32::MAX as int);
            assert(readings@.take(i as int + 1).drop_last() =~= readings@.take(i as int));
        }
        sum = sum + readings[i].usage_milli as u128;
        i = i + 1;
    }
    proof {
        assert(readings@.take(readings@.len() as int) =~= readings@);
        let len = readings@.len() as int;
        let cap = u32::MAX as int;
        lemma_div_is_ordered(sum as int, len * cap, len);
        lemma_mul_is_commutative(len, cap);
        lemma_div_multiples_vanish(cap, len);
    }
    (sum / (readings.len() as u128)) as u32
}

/// The memory-usage ratio as a centi-percent value, rounded to the nearest
/// hundredth of a percent. A zero or missing total collapses to zero
/// rather than a failed query, and a reading of more used than total
/// memory is clamped to one hundred percent.
pub open spec fn spec_memory_centi(used: u64, total: u64) -> int {
    if total == 0 {
        0
    } else if used >= total {
        10000
    } else {
        (used * 10000 + total / 2) / (total as int)
    }
}

/// Computes the displayed memory-usage percentage, in centi-percent.
pub fn memory_usage_centi(used: u64, total: u64) -> (c: u64)
    ensures
        c == spec_memory_centi(used, total),
        c <= 10000,
{
    if total == 0 {
        0
    } else if used >= total {
        10000
    } else {
        let wide: u128 = (used as u128 * 10000 + total as u128 / 2) / (total as u128);
        proof {
            lemma_mul_inequality(used as int, total as int - 1, 10000);
            lemma_mul_is_commutative(total as int - 1, 10000);
            lemma_multiply_divide_lt(
                used as int * 10000 + total as int / 2,
                total as int,
                10001,
            );
        }
        wide as u64
    }
}

/// The progress fraction shown by the gauge, in whole percent of the
/// target, truncated. It can pass one hundred transiently: the shared
/// counter may overshoot the target.
pub open spec fn spec_progress_percent(counter: u64, target: u64) -> int {
    (counter * 100) / (target as int)
}

/// Computes the displayed progress percentage, saturating at the largest
/// representable value.
pub fn progress_percent(counter: u64, target: u64) -> (p: u64)
    requires
        target >= 1,
    ensures
        p == min(spec_progress_percent(counter, target), u64::MAX as int),
{
    let wide: u128 = (counter as u128 * 100) / (target as u128);
    if wide > u64::MAX as u128 {
        u64::MAX
    } else {
        wide as u64
    }
}

/// The displayed progress never goes backwards: the shared counter only
/// grows, and a larger counter yields at least as large a percentage.
pub proof fn lemma_progress_monotone(c1: u64, c2: u64, target: u64)
    requires
        target >= 1,
        c1 <= c2,
    ensures
        spec_progress_percent(c1, target) <= spec_progress_percent(c2, target),
        min(spec_progress_percent(c1, target), u64::MAX as int) <= min(
            spec_progress_percent(c2, target),
            u64::MAX as int,
        ),
{
    lemma_mul_inequality(c1 as int, c2 as int, 100);
    lemma_div_is_ordered(c1 as int * 100, c2 as int * 100, target as int);
}

/// The throughput a finished run achieved, in operations per second,
/// computed from the fixed target — not the possibly-overshot counter — so
/// that the reported figure is reproducible run to run.
pub open spec fn spec_throughput(target: u64, elapsed_ms: u64) -> int {
    (target * 1000) / (elapsed_ms as int)
}

/// Computes the reported throughput in operations per second, saturating
/// at the largest representable value.
pub fn throughput_ops_per_sec(target: u64, elapsed_ms: u64) -> (r: u64)
    requires
        elapsed_ms >= 1,
    ensures
        r == min(spec_throughput(target, elapsed_ms), u64::MAX as int),
{
    let wide: u128 = (target as u128 * 1000) / (elapsed_ms as u128);
    if wide > u64::MAX as u128 {
        u64::MAX
    } else {
        wide as u64
    }
}

/// The benchmark score: the throughput expressed in hundredths of a
/// million operations per second.
pub fn score_centi_mops(throughput: u64) -> (s: u64)
    ensures
        s == throughput as int / 10000,
{
    throughput / 10000
}

} // verus!
