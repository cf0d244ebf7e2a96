use stressbench::state::{
    build_core_stats, build_system_info, continues, joined_transition, summary_lines,
    tick_transition, AppState, RunState, TelemetrySnapshot,
};
use stressbench::stats::CoreReading;
use stressbench::TARGET_OPERATIONS;

fn snapshot() -> TelemetrySnapshot {
    TelemetrySnapshot {
        per_core: vec![
            CoreReading { usage_milli: 57_345, frequency_mhz: 3_200 },
            CoreReading { usage_milli: 57_345, frequency_mhz: 3_000 },
        ],
        used_memory_bytes: 1_073_741_824,
        total_memory_bytes: 2_147_483_648,
        total_swap_bytes: 1_048_576,
        os_name: "Linux".to_string(),
        os_version: "1.0".to_string(),
        kernel_version: "6.1".to_string(),
        host_name: "box".to_string(),
    }
}

#[test]
fn running_continues_until_quit_or_target() {
    let state = RunState::Running;
    assert!(continues(state));
    assert_eq!(tick_transition(state, false, 0, TARGET_OPERATIONS), RunState::Running);
    assert_eq!(
        tick_transition(state, false, TARGET_OPERATIONS - 1, TARGET_OPERATIONS),
        RunState::Running
    );
}

#[test]
fn quit_mid_run_stops_after_joining_and_keeps_the_summary_shape() {
    // A quit command arrives while the counter is far from the target.
    let mid = tick_transition(RunState::Running, true, 42, TARGET_OPERATIONS);
    assert_eq!(mid, RunState::Stopping);
    assert!(!continues(mid));
    // Only joining every worker stops the run.
    assert_eq!(joined_transition(mid), RunState::Stopped);
    // The summary keeps the same four-line shape as a natural completion.
    let quit_summary: Vec<String> = summary_lines(TARGET_OPERATIONS, 50_000);
    let natural_summary: Vec<String> = summary_lines(TARGET_OPERATIONS, 50_000);
    assert_eq!(quit_summary.len(), 4);
    assert_eq!(quit_summary, natural_summary);
}

#[test]
fn natural_completion_stops_the_same_way() {
    let done = tick_transition(RunState::Running, false, TARGET_OPERATIONS, TARGET_OPERATIONS);
    assert_eq!(done, RunState::Stopping);
    let overshot = tick_transition(RunState::Running, false, TARGET_OPERATIONS + 5, TARGET_OPERATIONS);
    assert_eq!(overshot, RunState::Stopping);
    assert_eq!(joined_transition(done), RunState::Stopped);
    assert_eq!(joined_transition(RunState::Stopped), RunState::Stopped);
    assert_eq!(joined_transition(RunState::Running), RunState::Running);
}

#[test]
fn summary_lines_are_exact() {
    let lines: Vec<String> = summary_lines(100_000_000_000, 100_000);
    assert_eq!(lines.len(), 4);
    assert_eq!(lines[0], "Stress test completed");
    assert_eq!(lines[1], "Total operations: 100000000000");
    assert_eq!(lines[2], "Total time: 100.00s");
    assert_eq!(lines[3], "Operations per second: 1000000000 (1000.00 million ops/sec)");
}

#[test]
fn tick_rebuilds_the_display_snapshot() {
    let mut app = AppState::new();
    let telemetry = snapshot();
    app.update_tick(&telemetry, 500_000_000, 1_200);
    assert_eq!(app.total_operations, 500_000_000);
    assert_eq!(app.elapsed_ms, 1_200);
    // Mean of two equal raw readings, rounded to hundredths: 57.35%.
    assert_eq!(app.cpu_usage_centi, 5_735);
    // Half the memory in use.
    assert_eq!(app.memory_usage_centi, 5_000);
    assert_eq!(app.cpu_history.len(), 1);
    assert_eq!(app.cpu_history.get(0).elapsed_ms, 1_200);
    assert_eq!(app.cpu_history.get(0).value_cpct, 5_735);
    assert_eq!(app.memory_history.len(), 1);
    assert_eq!(app.memory_history.get(0).value_cpct, 5_000);
    assert_eq!(app.cpu_details.len(), 2);
    assert_eq!(app.cpu_details[0].label, "CPU 0");
    assert_eq!(app.cpu_details[0].usage_centi, 5_735);
    assert_eq!(app.cpu_details[0].frequency_mhz, 3_200);
    assert_eq!(app.cpu_details[1].label, "CPU 1");
    app.update_tick(&telemetry, 600_000_000, 1_400);
    assert_eq!(app.cpu_history.len(), 2);
    assert_eq!(app.total_operations, 600_000_000);
}

#[test]
fn per_core_panel_rows_follow_the_readings() {
    let telemetry = snapshot();
    let stats = build_core_stats(&telemetry.per_core);
    assert_eq!(stats.len(), 2);
    assert_eq!(stats[1].label, "CPU 1");
    assert_eq!(stats[1].usage_centi, 5_735);
    assert_eq!(stats[1].frequency_mhz, 3_000);
}

#[test]
fn system_info_panel_has_six_rows() {
    let telemetry = snapshot();
    let info = build_system_info(&telemetry);
    assert_eq!(info.len(), 6);
    assert_eq!(info[0].key, "OS");
    assert_eq!(info[0].value, "Linux");
    assert_eq!(info[1].key, "OS Version");
    assert_eq!(info[1].value, "1.0");
    assert_eq!(info[2].key, "Kernel");
    assert_eq!(info[2].value, "6.1");
    assert_eq!(info[3].key, "Host Name");
    assert_eq!(info[3].value, "box");
    assert_eq!(info[4].key, "Total Memory");
    assert_eq!(info[4].value, "2048 MB");
    assert_eq!(info[5].key, "Total Swap");
    assert_eq!(info[5].value, "1 MB");
}
