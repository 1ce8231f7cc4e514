//! The refreshable snapshot of operating-system state, and the three
//! operations on it: top-N ranking, system stats, and kill by pid.
//!
//! The snapshot keeps a table of processes by pid. The operating system
//! decides what a refresh puts in that table; the contracts here speak of the
//! table as it stands after each call.

use vstd::prelude::*;
use crate::ranking::{ProcessSample, is_top_ranking, sample_rank, top_by_cpu};
use crate::stats::SystemStats;

verus! {

#[verifier::external_type_specification]
#[verifier::external_body]
pub struct ExSystem(sysinfo::System);

#[verifier::external_type_specification]
#[verifier::external_body]
pub struct ExProcess(sysinfo::Process);

/// The process table that a `sysinfo::System` holds: for each pid, the
/// process's name, its CPU usage as float bits, and its memory in bytes.
pub uninterp spec fn process_table(s: sysinfo::System) -> Map<u32, (Seq<char>, u32, u64)>;

/// The global CPU usage, as float bits, that a `sysinfo::System` last read.
pub uninterp spec fn cpu_usage_bits_of(s: sysinfo::System) -> u32;

/// The memory in use, in bytes, that a `sysinfo::System` last read.
pub uninterp spec fn used_memory_of(s: sysinfo::System) -> u64;

/// The total memory, in bytes, that a `sysinfo::System` last read.
pub uninterp spec fn total_memory_of(s: sysinfo::System) -> u64;

/// A process table: for each pid, the name, the CPU usage as float bits, and
/// the memory in bytes.
pub type ProcessTable = Map<u32, (Seq<char>, u32, u64)>;

/// Relies on `sysinfo::System::new`: a system with nothing loaded yet.
#[verifier::external_body]
fn new_system() -> sysinfo::System {
    sysinfo::System::new()
}

/// Relies on `sysinfo::System::refresh_processes_specifics`, for all processes,
/// removing dead ones, refreshing CPU and memory. What the table then holds is
/// up to the operating system.
#[verifier::external_body]
fn refresh_processes(s: &mut sysinfo::System) {
    s.refresh_processes_specifics(
        sysinfo::ProcessesToUpdate::All,
        true,
        sysinfo::ProcessRefreshKind::new().with_cpu().with_memory(),
    );
}

/// Relies on `sysinfo::System::refresh_cpu_usage`, which refreshes the CPUs
/// and leaves the process table alone.
#[verifier::external_body]
fn refresh_cpu_usage(s: &mut sysinfo::System)
    ensures
        process_table(*final(s)) == process_table(*old(s)),
{
    s.refresh_cpu_usage();
}

/// Relies on `sysinfo::System::refresh_memory`, which refreshes the memory
/// figures and leaves the process table alone.
#[verifier::external_body]
fn refresh_memory(s: &mut sysinfo::System)
    ensures
        process_table(*final(s)) == process_table(*old(s)),
{
    s.refresh_memory();
}

/// Relies on `sysinfo::System::global_cpu_usage`, a read of the figure the
/// system holds; returns the float's bits.
#[verifier::external_body]
fn global_cpu_usage_bits(s: &sysinfo::System) -> (r: u32)
    ensures
        r == cpu_usage_bits_of(*s),
{
    s.global_cpu_usage().to_bits()
}

/// Relies on `sysinfo::System::total_memory`, a read of the figure the system
/// holds, in bytes.
#[verifier::external_body]
fn total_memory(s: &sysinfo::System) -> (r: u64)
    ensures
        r == total_memory_of(*s),
{
    s.total_memory()
}

/// Relies on `sysinfo::System::used_memory`, a read of the figure the system
/// holds, in bytes.
#[verifier::external_body]
fn used_memory(s: &sysinfo::System) -> (r: u64)
    ensures
        r == used_memory_of(*s),
{
    s.used_memory()
}

/// Relies on `sysinfo::System::processes`, a map keyed by pid, and on
/// `Process::name`, `Process::cpu_usage` and `Process::memory`: one sample for
/// each entry of the table, in the map's order.
#[verifier::external_body]
fn process_samples(s: &sysinfo::System) -> (r: Vec<ProcessSample>)
    ensures
        r@.len() == process_table(*s).len(),
        forall|i: int, j: int| 0 <= i < j < r@.len() ==> r@[i].pid != r@[j].pid,
        forall|i: int| 0 <= i < r@.len() ==> sample_in_table(#[trigger] r@[i], process_table(*s)),
{
    s.processes().iter().map(|(pid, p)| ProcessSample {
        pid: pid.as_u32(),
        name: p.name().to_string_lossy().into_owned(),
        cpu_usage_bits: p.cpu_usage().to_bits(),
        memory_bytes: p.memory(),
    }).collect()
}

/// Relies on `sysinfo::System::process`, a lookup in the process table.
#[verifier::external_body]
fn find_process(s: &sysinfo::System, pid: u32) -> (r: Option<&sysinfo::Process>)
    ensures
        r.is_some() == process_table(*s).contains_key(pid),
{
    s.process(sysinfo::Pid::from_u32(pid))
}

/// Relies on `sysinfo::Process::kill`: whether the kill signal was sent.
#[verifier::external_body]
fn send_kill(p: &sysinfo::Process) -> bool {
    p.kill()
}

/// The sample is the table's entry for its pid.
pub open spec fn sample_in_table(x: ProcessSample, t: ProcessTable) -> bool {
    &&& t.contains_key(x.pid)
    &&& t[x.pid] == (x.name@, x.cpu_usage_bits, x.memory_bytes)
}

/// The samples are one per entry of the table, each pid once.
pub open spec fn samples_of_table(s: Seq<ProcessSample>, t: ProcessTable) -> bool {
    &&& s.len() == t.len()
    &&& forall|i: int, j: int| 0 <= i < j < s.len() ==> s[i].pid != s[j].pid
    &&& forall|i: int| 0 <= i < s.len() ==> sample_in_table(#[trigger] s[i], t)
}

/// Why a kill request failed.
#[derive(PartialEq, Eq, Structural, Debug, Clone, Copy)]
pub enum KillError {
    /// The pid is not in the snapshot.
    NotFound,
    /// The signal was refused: no permission, the process already exited, or
    /// it is protected.
    SignalFailed,
}

/// The user-visible text of a kill failure.
pub open spec fn kill_error_text(e: KillError) -> Seq<char> {
    match e {
        KillError::NotFound => "Process not found"@,
        KillError::SignalFailed => "Failed to kill process (insufficient permissions or system process)"@,
    }
}

impl KillError {
    /// The text shown to the user for this failure.
    pub fn message(&self) -> (r: String)
        ensures
            r@ == kill_error_text(*self),
    {
        match self {
            KillError::NotFound => "Process not found".to_owned(),
            KillError::SignalFailed => {
                "Failed to kill process (insufficient permissions or system process)".to_owned()
            },
        }
    }
}

/// What a kill request returns once the process was found and the signal
/// was tried.
pub fn signal_outcome(sent: bool) -> (r: Result<bool, KillError>)
    ensures
        r == if sent {
            Ok::<bool, KillError>(true)
        } else {
            Err::<bool, KillError>(KillError::SignalFailed)
        },
{
    if sent {
        Ok(true)
    } else {
        Err(KillError::SignalFailed)
    }
}

/// The single shared snapshot of operating-system state.
pub struct Snapshot {
    system: sysinfo::System,
}

impl View for Snapshot {
    type V = ProcessTable;

    /// The process table: name, CPU usage bits and memory bytes by pid.
    closed spec fn view(&self) -> Self::V {
        process_table(self.system)
    }
}

impl Snapshot {
    /// The system-wide figures last read: global CPU usage as float bits,
    /// used memory and total memory in bytes.
    pub closed spec fn readings(&self) -> (u32, u64, u64) {
        (
            cpu_usage_bits_of(self.system),
            used_memory_of(self.system),
            total_memory_of(self.system),
        )
    }

    /// A snapshot after one full refresh: CPU, memory and the process table.
    pub fn new() -> (r: Snapshot) {
        let mut system = new_system();
        refresh_cpu_usage(&mut system);
        refresh_memory(&mut system);
        refresh_processes(&mut system);
        Snapshot { system }
    }

    /// Refreshes the process table, then returns its `top_n` busiest
    /// processes, busiest first.
    pub fn get_processes(&mut self, top_n: usize) -> (r: Vec<ProcessSample>)
        ensures
            r@.len() == if (top_n as nat) < final(self)@.len() {
                top_n as nat
            } else {
                final(self)@.len()
            },
            forall|i: int| 0 <= i < r@.len() ==> sample_in_table(#[trigger] r@[i], final(self)@),
            exists|s: Seq<ProcessSample>|
                samples_of_table(s, final(self)@) && is_top_ranking(r@, s, top_n as nat),
    {
        refresh_processes(&mut self.system);
        let samples = process_samples(&self.system);
        let ghost s = samples@;
        let r = top_by_cpu(samples, top_n);
        assert(samples_of_table(s, self@));
        proof {
            let rest = choose|rest: Seq<ProcessSample>|
                {
                    &&& (r@ + rest).to_multiset() == s.to_multiset()
                    &&& forall|i: int, j: int|
                        0 <= i < r@.len() && 0 <= j < rest.len() ==> sample_rank(
                            #[trigger] rest[j],
                        ) <= sample_rank(#[trigger] r@[i])
                };
            assert forall|i: int| 0 <= i < r@.len() implies sample_in_table(
                #[trigger] r@[i],
                self@,
            ) by {
                assert((r@ + rest)[i] == r@[i]);
                assert((r@ + rest).contains(r@[i]));
                (r@ + rest).to_multiset_ensures();
                s.to_multiset_ensures();
                assert(s.to_multiset().count(r@[i]) > 0);
                assert(s.contains(r@[i]));
            }
        }
        r
    }

    /// Refreshes the CPU and memory figures and returns them; the process
    /// table is left as it was.
    pub fn get_system_stats(&mut self) -> (r: SystemStats)
        ensures
            r.cpu_usage_bits == final(self).readings().0,
            r.memory_used_bytes == final(self).readings().1,
            r.memory_total_bytes == final(self).readings().2,
            r.wf(),
            final(self)@ == old(self)@,
    {
        refresh_cpu_usage(&mut self.system);
        refresh_memory(&mut self.system);
        let total = total_memory(&self.system);
        let used = used_memory(&self.system);
        let cpu = global_cpu_usage_bits(&self.system);
        SystemStats::from_readings(cpu, used, total)
    }

    /// Sends a kill signal to the process `pid` of the last refresh.
    ///
    /// Fails with `NotFound` exactly when the pid is not in the table, and
    /// otherwise with `SignalFailed` when the signal could not be sent.
    pub fn kill_process(&self, pid: u32) -> (r: Result<bool, KillError>)
        ensures
            (r == Err::<bool, KillError>(KillError::NotFound)) == !self@.contains_key(pid),
            r.is_ok() ==> r == Ok::<bool, KillError>(true),
    {
        match find_process(&self.system, pid) {
            None => Err(KillError::NotFound),
            Some(p) => signal_outcome(send_kill(p)),
        }
    }
}

} // verus!
