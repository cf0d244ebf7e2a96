//! An abstract model of one run of the load generator.
//!
//! A run is abstracted to the order in which the workers' batch
//! contributions hit the shared counter: entry `i` of the trace is the
//! worker that made the `i`-th contribution, each worth [`BATCH`]
//! operations. The laws proved here are the termination guarantees of the
//! engine: the counter never decreases, and a finished run overshoots the
//! budget by less than one batch per worker.

use vstd::prelude::*;
use vstd::arithmetic::div_mod::lemma_div_pos_is_pos;
use vstd::arithmetic::div_mod::lemma_fundamental_div_mod;
use vstd::arithmetic::div_mod::lemma_mod_bound;
use vstd::arithmetic::mul::lemma_mul_inequality;
use vstd::arithmetic::mul::lemma_mul_is_commutative;
use vstd::arithmetic::mul::lemma_mul_is_distributive_add_other_way;
use vstd::arithmetic::mul::lemma_mul_nonnegative;
use vstd::set_lib::lemma_int_range;
use vstd::set_lib::lemma_len_subset;
use vstd::set_lib::set_int_range;
use crate::stats::lemma_progress_monotone;
use crate::stats::spec_progress_percent;
use crate::BATCH;

verus! {

/// The shared counter's value once the first `t.len()` contributions have
/// landed: every contribution is one whole batch.
pub open spec fn counter_after(t: Seq<int>) -> int {
    (t.len() as int) * (BATCH as int)
}

/// A trace that `c` workers chasing `target` can produce. Each
/// contribution comes from one of the `c` workers; and a worker only
/// contributes again if the shared total right after its previous
/// contribution — `(i + 1) * BATCH` after the contribution at index `i` —
/// was still short of the target. The latter holds of the engine because a
/// worker re-reads the counter after each batch it adds, that read returns
/// at least the total at the worker's own add, and the worker stops as
/// soon as the read reaches the target.
pub open spec fn wf_trace(t: Seq<int>, c: int, target: int) -> bool {
    &&& forall|i: int| 0 <= i < t.len() ==> 0 <= #[trigger] t[i] < c
    &&& forall|i: int, j: int|
        0 <= i < j < t.len() && #[trigger] t[i] == #[trigger] t[j] ==> (i + 1) * (BATCH as int)
            < target
}

/// The shared counter is monotonically non-decreasing: however a trace
/// goes on, the counter only grows.
pub proof fn lemma_counter_monotone(t: Seq<int>, i: int, j: int)
    requires
        0 <= i <= j <= t.len(),
    ensures
        counter_after(t.take(i)) <= counter_after(t.take(j)),
{
    lemma_mul_inequality(i, j, BATCH as int);
}

/// The displayed progress fraction never goes backwards across a run:
/// however the contributions interleave, a later read of the counter shows
/// at least as large a percentage of the target as an earlier one.
pub proof fn lemma_displayed_progress_monotone(t: Seq<int>, i: int, j: int, target: u64)
    requires
        target >= 1,
        0 <= i <= j <= t.len(),
        counter_after(t.take(j)) <= u64::MAX,
    ensures
        spec_progress_percent(counter_after(t.take(i)) as u64, target) <= spec_progress_percent(
            counter_after(t.take(j)) as u64,
            target,
        ),
{
    lemma_counter_monotone(t, i, j);
    lemma_mul_nonnegative(i, BATCH as int);
    lemma_progress_monotone(
        counter_after(t.take(i)) as u64,
        counter_after(t.take(j)) as u64,
        target,
    );
}

/// Bounded overshoot: once a run is over (the counter reached the
/// target), the counter exceeds the target by less than one batch per
/// worker. The contribution that first reached the target is followed by
/// at most one further contribution per other worker, because a worker
/// whose own add lands at or past that point observes the target reached
/// and stops.
pub proof fn lemma_bounded_overshoot(t: Seq<int>, c: int, target: int)
    requires
        1 <= c,
        1 <= target,
        wf_trace(t, c, target),
        counter_after(t) >= target,
    ensures
        counter_after(t) - target < c * (BATCH as int),
{
    let b = BATCH as int;
    let len = t.len() as int;
    // The crossing index: the contribution at index k is the first whose
    // landing total (k + 1) * BATCH reaches the target.
    let k = (target - 1) / b;
    lemma_fundamental_div_mod(target - 1, b);
    lemma_mod_bound(target - 1, b);
    lemma_div_pos_is_pos(target - 1, b);
    lemma_mul_is_commutative(b, k);
    assert(k * b <= target - 1);
    lemma_mul_is_distributive_add_other_way(b, k, 1);
    assert((k + 1) * b >= target);
    // The trace reaches the crossing index.
    assert(k < len) by {
        if len <= k {
            lemma_mul_inequality(len, k, b);
        }
    }
    // From the crossing index on, each worker contributes at most once:
    // two contributions by one worker there would contradict wf_trace.
    let s = t.skip(k);
    assert forall|i: int, j: int|
        (0 <= i < s.len() && 0 <= j < s.len() && i != j) implies s[i] != s[j] by {
        let (lo, hi) = if i < j { (i, j) } else { (j, i) };
        if s[lo] == s[hi] {
            assert(t[k + lo] == t[k + hi]);
            assert((k + lo + 1) * b < target);
            lemma_mul_inequality(k + 1, k + lo + 1, b);
        }
    }
    assert(s.no_duplicates());
    // At most c pairwise-distinct worker ids exist, so the tail from the
    // crossing index on holds at most c contributions.
    s.unique_seq_to_set();
    assert(s.to_set().subset_of(set_int_range(0, c))) by {
        assert forall|x: int| s.to_set().contains(x) implies set_int_range(0, c).contains(x) by {
            let idx = choose|idx: int| 0 <= idx < s.len() && s[idx] == x;
            assert(t[k + idx] == x);
        }
    }
    lemma_int_range(0, c);
    lemma_len_subset(s.to_set(), set_int_range(0, c));
    assert(len - k <= c);
    // Total: at most the pre-crossing total plus one batch per worker.
    lemma_mul_inequality(len, k + c, b);
    lemma_mul_is_distributive_add_other_way(b, k, c);
    assert(len * b <= k * b + c * b);
}

} // verus!
