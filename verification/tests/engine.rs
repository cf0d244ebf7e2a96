use stressbench::engine::{planned_worker_count, worker_count, worker_run, ProgressCounter};
use stressbench::stats::progress_percent;
use stressbench::BATCH;

#[test]
fn counter_starts_at_zero_and_accumulates() {
    let counter = ProgressCounter::new();
    assert_eq!(counter.load(), 0);
    counter.add(BATCH);
    assert_eq!(counter.load(), BATCH);
    counter.add(BATCH);
    assert_eq!(counter.load(), 2 * BATCH);
}

#[test]
fn zero_detected_cores_still_means_one_worker() {
    assert_eq!(worker_count(0), 1);
    assert_eq!(worker_count(1), 1);
    assert_eq!(worker_count(8), 8);
}

#[test]
fn at_least_one_worker_is_planned_on_this_machine() {
    assert!(planned_worker_count() >= 1);
}

#[test]
fn single_worker_reaches_target_with_bounded_overshoot() {
    let counter = ProgressCounter::new();
    let target: u64 = 3_000_000;
    let exit = worker_run(&counter, target);
    assert!(exit.observed >= target || exit.contributed >= target);
    let end: u64 = counter.load();
    assert!(end >= target);
    // One worker: the counter passes the target by less than one batch.
    assert!(end - target < 1 * BATCH);
}

#[test]
fn worker_contributions_land_in_the_shared_counter() {
    let counter = ProgressCounter::new();
    let exit = worker_run(&counter, 2_000_000);
    assert_eq!(counter.load(), exit.contributed);
    assert_eq!(exit.observed, exit.contributed);
}

#[test]
fn progress_percent_tracks_the_counter() {
    let target: u64 = 200;
    assert_eq!(progress_percent(0, target), 0);
    assert_eq!(progress_percent(100, target), 50);
    assert_eq!(progress_percent(200, target), 100);
    // Overshoot shows transiently as more than one hundred percent.
    assert_eq!(progress_percent(220, target), 110);
}

#[test]
fn progress_percent_never_goes_backwards() {
    let target: u64 = 999;
    let mut last: u64 = 0;
    let mut counter: u64 = 0;
    while counter < 3_000 {
        let p: u64 = progress_percent(counter, target);
        assert!(p >= last);
        last = p;
        counter += 7;
    }
}
