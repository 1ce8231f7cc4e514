//! Processes as plain values, and their ranking by CPU usage.

use vstd::prelude::*;

verus! {

broadcast use vstd::seq_lib::group_to_multiset_ensures;

/// One process as seen in one refresh of the snapshot.
///
/// The CPU usage is an IEEE-754 single-precision percentage kept as its bit
/// pattern (`f32::to_bits`), so that it can be ordered exactly.
pub struct ProcessSample {
    pub pid: u32,
    pub name: String,
    pub cpu_usage_bits: u32,
    pub memory_bytes: u64,
}

/// The sign bit of a single-precision float.
pub const SIGN_BIT: u32 = 0x8000_0000;

/// The bit pattern of positive infinity, with the sign cleared.
pub const INFINITY_BITS: u32 = 0x7F80_0000;

/// Where a CPU usage, given by its float bits, ranks: larger means busier.
///
/// Numbers keep their numeric order, and `-0.0` ranks with `0.0`. A NaN is
/// not comparable with any number; it ranks below all of them, and all NaNs
/// rank together.
pub open spec fn cpu_rank(bits: u32) -> nat {
    let magnitude = bits % SIGN_BIT;
    if magnitude > INFINITY_BITS {
        0
    } else if bits < SIGN_BIT {
        (SIGN_BIT + magnitude) as nat
    } else {
        (SIGN_BIT - magnitude) as nat
    }
}

pub open spec fn sample_rank(s: ProcessSample) -> nat {
    cpu_rank(s.cpu_usage_bits)
}

/// The samples are ordered from the busiest down; equal ranks in any order.
pub open spec fn ranked_descending(r: Seq<ProcessSample>) -> bool {
    forall|i: int, j: int| 0 <= i < j < r.len() ==> sample_rank(#[trigger] r[j]) <= sample_rank(
        #[trigger] r[i],
    )
}

/// `r` holds `min(n, |s|)` samples of `s`, busiest first, and no sample of
/// `s` left out ranks above one that was kept.
pub open spec fn is_top_ranking(r: Seq<ProcessSample>, s: Seq<ProcessSample>, n: nat) -> bool {
    &&& r.len() == if n < s.len() { n } else { s.len() }
    &&& ranked_descending(r)
    &&& exists|rest: Seq<ProcessSample>|
        {
            &&& (r + rest).to_multiset() == s.to_multiset()
            &&& forall|i: int, j: int|
                0 <= i < r.len() && 0 <= j < rest.len() ==> sample_rank(#[trigger] rest[j])
                    <= sample_rank(#[trigger] r[i])
        }
}

/// The rank of a CPU usage given by its float bits, as `cpu_rank` defines it.
pub fn cpu_rank_key(bits: u32) -> (r: u32)
    ensures
        r as nat == cpu_rank(bits),
{
    let magnitude: u32 = bits % SIGN_BIT;
    if magnitude > INFINITY_BITS {
        0
    } else if bits < SIGN_BIT {
        SIGN_BIT + magnitude
    } else {
        SIGN_BIT - magnitude
    }
}

/// The index of a busiest sample of a non-empty sequence.
fn index_of_busiest(v: &Vec<ProcessSample>) -> (r: usize)
    requires
        v.len() > 0,
    ensures
        r < v.len(),
        forall|j: int| 0 <= j < v.len() ==> sample_rank(#[trigger] v@[j]) <= sample_rank(v@[r as int]),
{
    let mut best: usize = 0;
    let mut best_key: u32 = cpu_rank_key(v[0].cpu_usage_bits);
    let mut i: usize = 1;
    while i < v.len()
        invariant
            best < i <= v.len(),
            best_key as nat == sample_rank(v@[best as int]),
            forall|j: int| 0 <= j < i ==> sample_rank(#[trigger] v@[j]) <= best_key,
        decreases v.len() - i,
    {
        let key: u32 = cpu_rank_key(v[i].cpu_usage_bits);
        if key > best_key {
            best = i;
            best_key = key;
        }
        i = i + 1;
    }
    best
}

/// The `top_n` busiest samples, busiest first.
///
/// Samples of equal rank may come in any order.
pub fn top_by_cpu(samples: Vec<ProcessSample>, top_n: usize) -> (r: Vec<ProcessSample>)
    ensures
        is_top_ranking(r@, samples@, top_n as nat),
{
    let ghost all = samples@;
    let mut rest = samples;
    let mut out: Vec<ProcessSample> = Vec::new();
    while out.len() < top_n && rest.len() > 0
        invariant
            (out@ + rest@).to_multiset() == all.to_multiset(),
            out.len() <= top_n,
            out.len() + rest.len() == all.len(),
            ranked_descending(out@),
            forall|i: int, j: int|
                0 <= i < out.len() && 0 <= j < rest.len() ==> sample_rank(#[trigger] rest@[j])
                    <= sample_rank(#[trigger] out@[i]),
        decreases rest.len(),
    {
        let best = index_of_busiest(&rest);
        let ghost before = rest@;
        let ghost out_before = out@;
        let x = rest.remove(best);
        proof {
            vstd::seq_lib::lemma_multiset_commutative(out_before, before);
            vstd::seq_lib::lemma_multiset_commutative(out@, rest@);
            assert(before.remove(best as int) =~= rest@);
            assert(before.contains(x));
        }
        out.push(x);
        proof {
            vstd::seq_lib::lemma_multiset_commutative(out@, rest@);
            assert(out@ =~= out_before.push(x));
            assert forall|i: int, j: int|
                0 <= i < out.len() && 0 <= j < rest.len() implies sample_rank(
                #[trigger] rest@[j],
            ) <= sample_rank(#[trigger] out@[i]) by {
                assert(rest@[j] == before[if j < best { j } else { j + 1 }]);
            }
        }
    }
    proof {
        let rest_final = rest@;
        assert(forall|i: int, j: int|
            0 <= i < out.len() && 0 <= j < rest_final.len() ==> sample_rank(
                #[trigger] rest_final[j],
            ) <= sample_rank(#[trigger] out@[i]));
    }
    out
}

} // verus!
