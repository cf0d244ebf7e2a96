//! The load-generation engine: the shared progress counter, the per-worker
//! busy loop, and the worker-count policy.

use vstd::prelude::*;
use vstd::arithmetic::mul::lemma_mul_is_distributive_add_other_way;
use std::sync::atomic::AtomicU64;
use std::sync::atomic::Ordering;
use crate::BATCH;

verus! {

/// The single shared, wait-free, monotonically non-decreasing counter of
/// completed work units. All cross-thread communication goes through it,
/// with relaxed ordering: readers may observe a stale but monotone value.
pub struct ProgressCounter {
    cell: AtomicU64,
}

impl ProgressCounter {
    /// A fresh counter holding zero.
    pub fn new() -> ProgressCounter {
        ProgressCounter { cell: AtomicU64::new(0) }
    }

    /// Folds `amount` completed operations into the shared total.
    /// Wait-free; establishes no ordering with other memory.
    pub fn add(&self, amount: u64) {
        self.cell.fetch_add(amount, Ordering::Relaxed);
    }

    /// A wait-free snapshot read of the shared total. The value may be
    /// stale; successive reads by one thread never go backwards.
    pub fn load(&self) -> u64 {
        self.cell.load(Ordering::Relaxed)
    }
}

/// How many workers to launch for a platform that reports `detected`
/// logical cores: one per core, and at least one even when the platform
/// reports none.
pub open spec fn spec_worker_count(detected: usize) -> usize {
    if detected == 0 {
        1
    } else {
        detected
    }
}

/// Clamps a detected logical-core count to the number of workers to spawn.
pub fn worker_count(detected: usize) -> (c: usize)
    ensures
        c == spec_worker_count(detected),
        c >= 1,
{
    if detected == 0 {
        1
    } else {
        detected
    }
}

/// Relies on num_cpus::get: the number of logical cores of the current
/// system, documented to be at least 1.
#[verifier::external_body]
fn detect_logical_cores() -> (n: usize)
    ensures
        n >= 1,
{
    num_cpus::get()
}

/// The number of workers the engine will spawn on this machine: one per
/// detected logical core, and at least one in every case.
pub fn planned_worker_count() -> (c: usize)
    ensures
        c >= 1,
{
    let detected = detect_logical_cores();
    worker_count(detected)
}

/// What a worker observed when it stopped.
pub struct WorkerExit {
    /// The last value the worker read from the shared counter.
    pub observed: u64,
    /// The total this worker itself folded into the shared counter.
    pub contributed: u64,
}

/// One worker's run: a busy loop of cheap wrapping arithmetic whose
/// accumulated value is folded into the shared counter every `BATCH`
/// iterations, so the loop cannot be discarded as dead code. After each
/// contribution the worker re-reads the counter and stops once it observes
/// `target` reached.
///
/// The worker stops either because it observed the target reached, or
/// because its own contributions alone already total the target (in which
/// case the shared counter has certainly reached it, even if this worker's
/// last read was stale).
pub fn worker_run(counter: &ProgressCounter, target: u64) -> (exit: WorkerExit)
    requires
        1 <= target <= u64::MAX - BATCH,
    ensures
        exit.observed >= target || exit.contributed >= target,
        exists|k: int| 0 <= k && exit.contributed == #[trigger] (k * (BATCH as int)),
{
    let mut n: u64 = 0;
    let mut contributed: u64 = 0;
    let ghost mut batches: int = 0;
    loop
        invariant
            1 <= target <= u64::MAX - BATCH,
            contributed < target,
            contributed == n - (n % BATCH),
            0 <= batches,
            contributed == batches * (BATCH as int),
        decreases target - contributed, BATCH - (n % BATCH),
    {
        n = n.wrapping_add(1);
        if n % BATCH == 0 {
            counter.add(BATCH);
            contributed = contributed + BATCH;
            proof {
                lemma_mul_is_distributive_add_other_way(BATCH as int, batches, 1);
                batches = batches + 1;
            }
            let observed = counter.load();
            if observed >= target {
                return WorkerExit { observed, contributed };
            }
            if contributed >= target {
                return WorkerExit { observed, contributed };
            }
        }
    }
}

} // verus!
