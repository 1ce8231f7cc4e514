//! Aggregate CPU and memory figures of the whole system.

use vstd::prelude::*;

verus! {

/// Parts per million in one whole.
pub const PPM: u128 = 1_000_000;

/// System-wide figures of one stats query.
///
/// The global CPU usage is an IEEE-754 single-precision percentage kept as its
/// bit pattern. Memory is in bytes; the share of memory in use is in parts per
/// million of the total (a percentage times 10 000).
pub struct SystemStats {
    pub cpu_usage_bits: u32,
    pub memory_used_bytes: u64,
    pub memory_total_bytes: u64,
    pub memory_usage_ppm: u128,
}

/// The share of `total` that `used` makes, in parts per million, rounded
/// down; zero when there is no total to divide by.
pub open spec fn usage_ppm(used: nat, total: nat) -> nat {
    if total == 0 {
        0
    } else {
        used * (PPM as nat) / total
    }
}

/// Well formed: the usage share agrees with the two memory figures.
pub open spec fn stats_consistent(s: SystemStats) -> bool {
    s.memory_usage_ppm as nat == usage_ppm(s.memory_used_bytes as nat, s.memory_total_bytes as nat)
}

/// The usage share of `used` bytes out of `total`, as `usage_ppm` defines it.
pub fn memory_usage_ppm(used: u64, total: u64) -> (r: u128)
    ensures
        r as nat == usage_ppm(used as nat, total as nat),
{
    if total == 0 {
        0
    } else {
        assert(used as u128 * PPM <= u64::MAX as u128 * PPM) by (nonlinear_arith);
        (used as u128 * PPM) / (total as u128)
    }
}

impl SystemStats {
    pub open spec fn wf(&self) -> bool {
        stats_consistent(*self)
    }

    /// The stats made of one reading of the global CPU usage and of the used
    /// and total memory.
    pub fn from_readings(cpu_usage_bits: u32, memory_used_bytes: u64, memory_total_bytes: u64) -> (r:
        SystemStats)
        ensures
            r.cpu_usage_bits == cpu_usage_bits,
            r.memory_used_bytes == memory_used_bytes,
            r.memory_total_bytes == memory_total_bytes,
            r.memory_usage_ppm as nat == usage_ppm(memory_used_bytes as nat, memory_total_bytes as nat),
            r.wf(),
    {
        SystemStats {
            cpu_usage_bits,
            memory_used_bytes,
            memory_total_bytes,
            memory_usage_ppm: memory_usage_ppm(memory_used_bytes, memory_total_bytes),
        }
    }
}

} // verus!
