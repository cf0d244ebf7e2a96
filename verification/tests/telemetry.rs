use stressbench::fmt::{centi_to_string, u64_to_string};
use stressbench::history::{History, Sample};
use stressbench::stats::{
    mean_usage_milli, memory_usage_centi, round_milli_to_centi, score_centi_mops,
    throughput_ops_per_sec, CoreReading,
};
use stressbench::HISTORY_CAPACITY;

#[test]
fn raw_reading_rounds_to_two_decimal_places() {
    // 57.345% is stored and displayed as 57.35%.
    assert_eq!(round_milli_to_centi(57_345), 5_735);
    assert_eq!(centi_to_string(5_735), "57.35");
    // Halves round up, the rest to the nearest hundredth.
    assert_eq!(round_milli_to_centi(57_344), 5_734);
    assert_eq!(round_milli_to_centi(0), 0);
    assert_eq!(round_milli_to_centi(100_000), 10_000);
}

#[test]
fn reported_throughput_and_score_come_from_the_fixed_target() {
    let target: u64 = 100_000_000_000;
    let elapsed_ms: u64 = 100_000;
    let throughput: u64 = throughput_ops_per_sec(target, elapsed_ms);
    assert_eq!(throughput, 1_000_000_000);
    let score: u64 = score_centi_mops(throughput);
    assert_eq!(score, 100_000);
    assert_eq!(centi_to_string(score), "1000.00");
}

#[test]
fn history_window_is_bounded_and_fifo() {
    let mut history = History::new();
    let total: usize = HISTORY_CAPACITY + 10;
    let mut tick: usize = 0;
    while tick < total {
        history.push(Sample { elapsed_ms: tick as u64, value_cpct: (tick % 100) as u64 });
        tick += 1;
        // After T appends the window holds min(T, capacity) samples.
        assert_eq!(history.len(), tick.min(HISTORY_CAPACITY));
    }
    // The oldest samples left first: the window starts at tick 10.
    assert_eq!(history.get(0).elapsed_ms, 10);
    // Order is otherwise preserved.
    let mut i: usize = 0;
    while i < history.len() {
        assert_eq!(history.get(i).elapsed_ms, (10 + i) as u64);
        i += 1;
    }
}

#[test]
fn history_below_capacity_keeps_everything() {
    let mut history = History::new();
    let mut tick: u64 = 0;
    while tick < 5 {
        history.push(Sample { elapsed_ms: tick, value_cpct: tick });
        tick += 1;
    }
    assert_eq!(history.len(), 5);
    assert_eq!(history.get(0).elapsed_ms, 0);
    assert_eq!(history.get(4).elapsed_ms, 4);
}

#[test]
fn mean_usage_is_the_average_of_the_cores() {
    let readings: Vec<CoreReading> = vec![
        CoreReading { usage_milli: 1_000, frequency_mhz: 2_400 },
        CoreReading { usage_milli: 2_000, frequency_mhz: 2_400 },
    ];
    assert_eq!(mean_usage_milli(&readings), 1_500);
    let none: Vec<CoreReading> = Vec::new();
    assert_eq!(mean_usage_milli(&none), 0);
}

#[test]
fn memory_percentage_is_rounded_and_total_zero_collapses() {
    assert_eq!(memory_usage_centi(0, 0), 0);
    assert_eq!(memory_usage_centi(1, 2), 5_000);
    assert_eq!(memory_usage_centi(7, 7), 10_000);
    // 1/3 of memory used: 33.33% to the nearest hundredth.
    assert_eq!(memory_usage_centi(1, 3), 3_333);
    // 2/3: 66.67%, rounded up.
    assert_eq!(memory_usage_centi(2, 3), 6_667);
}

#[test]
fn numbers_render_in_decimal() {
    assert_eq!(u64_to_string(0), "0");
    assert_eq!(u64_to_string(12_345), "12345");
    assert_eq!(u64_to_string(u64::MAX), "18446744073709551615");
    assert_eq!(centi_to_string(0), "0.00");
    assert_eq!(centi_to_string(5), "0.05");
    assert_eq!(centi_to_string(10_000), "100.00");
}
