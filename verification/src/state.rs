//! The control loop's state machine and the display snapshot it rebuilds
//! every tick.
//!
//! The control loop runs on one thread at a fixed cadence. Each tick it
//! polls for a quit command with a bounded wait, queries the telemetry
//! provider, rebuilds the display snapshot, and redraws; it decides here,
//! from the quit flag and the shared counter alone, when the run stops.

use vstd::prelude::*;
use vstd::math::min;
use vstd::string::StringExecFns;
use crate::fmt::spec_centi;
use crate::fmt::spec_dec;
use crate::fmt::centi_to_string;
use crate::fmt::u64_to_string;
use crate::history::History;
use crate::history::Sample;
use crate::history::slide;
use crate::stats::CoreReading;
use crate::stats::mean_usage_milli;
use crate::stats::memory_usage_centi;
use crate::stats::round_milli_to_centi;
use crate::stats::score_centi_mops;
use crate::stats::spec_mean_milli;
use crate::stats::spec_memory_centi;
use crate::stats::spec_round_centi;
use crate::stats::spec_throughput;
use crate::stats::throughput_ops_per_sec;

verus! {

/// The lifecycle of one run: linear, with no way back. `Running` turns
/// into `Stopping` when a quit command arrives or the shared counter
/// reaches the target; `Stopping` turns into `Stopped` only once every
/// worker has been joined. `Stopped` is terminal.
#[derive(Clone, Copy, PartialEq, Eq, Structural, Debug)]
pub enum RunState {
    Running,
    Stopping,
    Stopped,
}

/// Where a tick takes the lifecycle: a running benchmark begins stopping
/// when a quit command arrived or the counter snapshot reached the target;
/// nothing else moves.
pub open spec fn spec_tick_transition(
    state: RunState,
    quit: bool,
    counter: u64,
    target: u64,
) -> RunState {
    match state {
        RunState::Running => if quit || counter >= target {
            RunState::Stopping
        } else {
            RunState::Running
        },
        RunState::Stopping => RunState::Stopping,
        RunState::Stopped => RunState::Stopped,
    }
}

/// Applies one tick's termination decision to the lifecycle state.
pub fn tick_transition(state: RunState, quit: bool, counter: u64, target: u64) -> (next: RunState)
    ensures
        next == spec_tick_transition(state, quit, counter, target),
{
    match state {
        RunState::Running => {
            if quit || counter >= target {
                RunState::Stopping
            } else {
                RunState::Running
            }
        },
        RunState::Stopping => RunState::Stopping,
        RunState::Stopped => RunState::Stopped,
    }
}

/// Where joining the workers takes the lifecycle: only a stopping run can
/// stop, and only once every worker has been joined.
pub open spec fn spec_joined_transition(state: RunState) -> RunState {
    match state {
        RunState::Running => RunState::Running,
        RunState::Stopping => RunState::Stopped,
        RunState::Stopped => RunState::Stopped,
    }
}

/// Marks the run stopped once every worker thread has been joined.
pub fn joined_transition(state: RunState) -> (next: RunState)
    ensures
        next == spec_joined_transition(state),
{
    match state {
        RunState::Running => RunState::Running,
        RunState::Stopping => RunState::Stopped,
        RunState::Stopped => RunState::Stopped,
    }
}

/// Whether the control loop runs another tick.
pub fn continues(state: RunState) -> (b: bool)
    ensures
        b == (state == RunState::Running),
{
    match state {
        RunState::Running => true,
        RunState::Stopping => false,
        RunState::Stopped => false,
    }
}

/// Everything one telemetry query of the platform yields, as plain values.
/// A field the platform could not supply collapses to zero or to the empty
/// string rather than failing the query.
pub struct TelemetrySnapshot {
    /// One raw reading per logical core.
    pub per_core: Vec<CoreReading>,
    /// Memory currently in use, in bytes.
    pub used_memory_bytes: u64,
    /// Total installed memory, in bytes.
    pub total_memory_bytes: u64,
    /// Total swap space, in bytes.
    pub total_swap_bytes: u64,
    pub os_name: String,
    pub os_version: String,
    pub kernel_version: String,
    pub host_name: String,
}

/// One row of the per-core panel.
pub struct PerCoreStat {
    /// The core's display label.
    pub label: String,
    /// Usage rounded to hundredths of a percent.
    pub usage_centi: u32,
    /// Current frequency in MHz.
    pub frequency_mhz: u64,
}

/// The label of the core at index `i`.
pub open spec fn spec_core_label(i: int) -> Seq<char> {
    "CPU "@ + spec_dec(i)
}

/// The per-core panel rows that a list of raw readings yields: one row per
/// core, labelled by index, usage rounded to hundredths of a percent,
/// frequency passed through.
pub open spec fn core_stats_match(readings: Seq<CoreReading>, stats: Seq<PerCoreStat>) -> bool {
    &&& stats.len() == readings.len()
    &&& forall|i: int|
        0 <= i < stats.len() ==> {
            &&& (#[trigger] stats[i]).label@ == spec_core_label(i)
            &&& stats[i].usage_centi == spec_round_centi(readings[i].usage_milli as int)
            &&& stats[i].frequency_mhz == readings[i].frequency_mhz
        }
}

/// Rebuilds the per-core panel from fresh readings.
pub fn build_core_stats(readings: &Vec<CoreReading>) -> (stats: Vec<PerCoreStat>)
    ensures
        core_stats_match(readings@, stats@),
{
    let mut stats: Vec<PerCoreStat> = Vec::new();
    let mut i: usize = 0;
    while i < readings.len()
        invariant
            0 <= i <= readings@.len(),
            stats@.len() == i,
            forall|j: int|
                0 <= j < i ==> {
                    &&& (#[trigger] stats@[j]).label@ == spec_core_label(j)
                    &&& stats@[j].usage_centi == spec_round_centi(readings@[j].usage_milli as int)
                    &&& stats@[j].frequency_mhz == readings@[j].frequency_mhz
                },
        decreases readings@.len() - i,
    {
        let mut label = String::from_str("CPU ");
        let digits = u64_to_string(i as u64);
        label.append(digits.as_str());
        let reading = readings[i];
        stats.push(
            PerCoreStat {
                label,
                usage_centi: round_milli_to_centi(reading.usage_milli),
                frequency_mhz: reading.frequency_mhz,
            },
        );
        i = i + 1;
    }
    stats
}

/// One row of the machine-metadata panel.
pub struct SystemInfoEntry {
    pub key: String,
    pub value: String,
}

/// Whole mebibytes in a byte count, the unit the metadata panel shows
/// memory sizes in.
pub open spec fn spec_mb(bytes: u64) -> int {
    bytes as int / 1024 / 1024
}

/// The metadata panel a telemetry snapshot yields: six rows of static
/// machine facts, memory sizes rendered in whole mebibytes.
pub open spec fn system_info_matches(s: &TelemetrySnapshot, entries: Seq<SystemInfoEntry>) -> bool {
    &&& entries.len() == 6
    &&& entries[0].key@ == "OS"@ && entries[0].value@ == s.os_name@
    &&& entries[1].key@ == "OS Version"@ && entries[1].value@ == s.os_version@
    &&& entries[2].key@ == "Kernel"@ && entries[2].value@ == s.kernel_version@
    &&& entries[3].key@ == "Host Name"@ && entries[3].value@ == s.host_name@
    &&& entries[4].key@ == "Total Memory"@ && entries[4].value@ == spec_dec(
        spec_mb(s.total_memory_bytes),
    ) + " MB"@
    &&& entries[5].key@ == "Total Swap"@ && entries[5].value@ == spec_dec(
        spec_mb(s.total_swap_bytes),
    ) + " MB"@
}

fn mb_string(bytes: u64) -> (s: String)
    ensures
        s@ == spec_dec(spec_mb(bytes)) + " MB"@,
{
    u64_to_string(bytes / 1024 / 1024).concat(" MB")
}

/// Rebuilds the machine-metadata panel from a fresh snapshot.
pub fn build_system_info(s: &TelemetrySnapshot) -> (entries: Vec<SystemInfoEntry>)
    ensures
        system_info_matches(s, entries@),
{
    let mut entries: Vec<SystemInfoEntry> = Vec::new();
    entries.push(
        SystemInfoEntry { key: String::from_str("OS"), value: s.os_name.clone() },
    );
    entries.push(
        SystemInfoEntry { key: String::from_str("OS Version"), value: s.os_version.clone() },
    );
    entries.push(
        SystemInfoEntry { key: String::from_str("Kernel"), value: s.kernel_version.clone() },
    );
    entries.push(
        SystemInfoEntry { key: String::from_str("Host Name"), value: s.host_name.clone() },
    );
    entries.push(
        SystemInfoEntry {
            key: String::from_str("Total Memory"),
            value: mb_string(s.total_memory_bytes),
        },
    );
    entries.push(
        SystemInfoEntry {
            key: String::from_str("Total Swap"),
            value: mb_string(s.total_swap_bytes),
        },
    );
    entries
}

/// The sample a tick appends to a history buffer.
pub open spec fn sample_at(elapsed_ms: u64, value_cpct: u64) -> Sample {
    Sample { elapsed_ms, value_cpct }
}

/// The display snapshot the renderer consumes: rebuilt destructively every
/// tick, except for the two history buffers, which slide.
pub struct AppState {
    /// The shared counter as last read.
    pub total_operations: u64,
    /// Wall-clock time since the run started, in milliseconds.
    pub elapsed_ms: u64,
    /// Aggregate CPU usage in hundredths of a percent.
    pub cpu_usage_centi: u32,
    /// Memory usage in hundredths of a percent.
    pub memory_usage_centi: u64,
    /// The sliding window of aggregate CPU usage samples.
    pub cpu_history: History,
    /// The sliding window of memory usage samples.
    pub memory_history: History,
    /// The per-core panel rows.
    pub cpu_details: Vec<PerCoreStat>,
    /// The machine-metadata panel rows.
    pub system_info: Vec<SystemInfoEntry>,
}

impl AppState {
    /// Both history windows are within capacity.
    pub open spec fn wf(&self) -> bool {
        self.cpu_history.wf() && self.memory_history.wf()
    }

    /// The blank snapshot shown before the first tick.
    pub fn new() -> (s: AppState)
        ensures
            s.wf(),
            s.total_operations == 0,
            s.elapsed_ms == 0,
            s.cpu_usage_centi == 0,
            s.memory_usage_centi == 0,
            s.cpu_history@ == Seq::<Sample>::empty(),
            s.memory_history@ == Seq::<Sample>::empty(),
            s.cpu_details@ == Seq::<PerCoreStat>::empty(),
            s.system_info@ == Seq::<SystemInfoEntry>::empty(),
    {
        AppState {
            total_operations: 0,
            elapsed_ms: 0,
            cpu_usage_centi: 0,
            memory_usage_centi: 0,
            cpu_history: History::new(),
            memory_history: History::new(),
            cpu_details: Vec::new(),
            system_info: Vec::new(),
        }
    }

    /// One tick's rebuild: takes the fresh counter snapshot, the elapsed
    /// time and one telemetry query, recomputes every display figure,
    /// slides one new sample into each history window, and replaces the
    /// panel lists wholesale.
    pub fn update_tick(
        &mut self,
        snapshot: &TelemetrySnapshot,
        counter: u64,
        elapsed_ms: u64,
    )
        requires
            old(self).wf(),
        ensures
            final(self).wf(),
            final(self).total_operations == counter,
            final(self).elapsed_ms == elapsed_ms,
            final(self).cpu_usage_centi == spec_round_centi(spec_mean_milli(snapshot.per_core@)),
            final(self).memory_usage_centi == spec_memory_centi(
                snapshot.used_memory_bytes,
                snapshot.total_memory_bytes,
            ),
            final(self).cpu_history@ == slide(
                old(self).cpu_history@,
                sample_at(elapsed_ms, final(self).cpu_usage_centi as u64),
            ),
            final(self).memory_history@ == slide(
                old(self).memory_history@,
                sample_at(elapsed_ms, final(self).memory_usage_centi),
            ),
            core_stats_match(snapshot.per_core@, final(self).cpu_details@),
            system_info_matches(snapshot, final(self).system_info@),
    {
        self.total_operations = counter;
        self.elapsed_ms = elapsed_ms;
        let mean_milli = mean_usage_milli(&snapshot.per_core);
        self.cpu_usage_centi = round_milli_to_centi(mean_milli);
        self.memory_usage_centi = memory_usage_centi(
            snapshot.used_memory_bytes,
            snapshot.total_memory_bytes,
        );
        self.cpu_history.push(
            Sample { elapsed_ms, value_cpct: self.cpu_usage_centi as u64 },
        );
        self.memory_history.push(
            Sample { elapsed_ms, value_cpct: self.memory_usage_centi },
        );
        self.cpu_details = build_core_stats(&snapshot.per_core);
        self.system_info = build_system_info(snapshot);
    }
}

/// The four lines of the final plain-text summary: the completion notice,
/// the consumed budget (the fixed target, not the overshot counter), the
/// elapsed wall-clock time, and the achieved throughput with the derived
/// score in millions of operations per second.
pub open spec fn spec_summary_lines(target: u64, elapsed_ms: u64) -> Seq<Seq<char>> {
    let throughput = min(spec_throughput(target, elapsed_ms), u64::MAX as int);
    seq![
        "Stress test completed"@,
        "Total operations: "@ + spec_dec(target as int),
        "Total time: "@ + spec_centi(elapsed_ms as int / 10) + "s"@,
        "Operations per second: "@ + spec_dec(throughput) + " ("@ + spec_centi(throughput / 10000)
            + " million ops/sec)"@,
    ]
}

/// Renders the final summary. Its shape does not depend on whether the run
/// finished naturally or on a quit command: it is the same four lines
/// either way.
pub fn summary_lines(target: u64, elapsed_ms: u64) -> (lines: Vec<String>)
    requires
        elapsed_ms >= 1,
    ensures
        lines.deep_view() == spec_summary_lines(target, elapsed_ms),
        lines@.len() == 4,
{
    let throughput = throughput_ops_per_sec(target, elapsed_ms);
    let score = score_centi_mops(throughput);
    let mut lines: Vec<String> = Vec::new();
    lines.push(String::from_str("Stress test completed"));
    lines.push(String::from_str("Total operations: ").concat(u64_to_string(target).as_str()));
    let mut time_line = String::from_str("Total time: ");
    time_line.append(centi_to_string(elapsed_ms / 10).as_str());
    time_line.append("s");
    lines.push(time_line);
    let mut ops_line = String::from_str("Operations per second: ");
    ops_line.append(u64_to_string(throughput).as_str());
    ops_line.append(" (");
    ops_line.append(centi_to_string(score).as_str());
    ops_line.append(" million ops/sec)");
    lines.push(ops_line);
    proof {
        assert(lines.deep_view() =~= spec_summary_lines(target, elapsed_ms));
    }
    lines
}

} // verus!
