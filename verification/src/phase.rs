//! Which pricing phase a point in time falls into.
//!
//! The phases follow one another from time zero. Phase `i` ends where the
//! lengths of the phases `0..=i` add up to; a time that is exactly such an
//! end belongs to the phase that follows. The last phase takes every time
//! that no earlier phase takes.

use vstd::prelude::*;

verus! {

/// The time at which the first `n` phases are over: the sum of their lengths.
pub open spec fn phases_end(durations: Seq<u64>, n: int) -> int
    decreases n,
{
    if n <= 0 {
        0
    } else {
        phases_end(durations, n - 1) + durations[n - 1]
    }
}

/// The first phase from `from` on that is not over at `current_time`, or the
/// last phase when all of them are.
pub open spec fn sale_phase_from(current_time: u64, durations: Seq<u64>, from: int) -> int
    decreases durations.len() - from,
{
    if from >= durations.len() - 1 {
        durations.len() - 1
    } else if current_time < phases_end(durations, from + 1) {
        from
    } else {
        sale_phase_from(current_time, durations, from + 1)
    }
}

/// The phase that `current_time` falls into.
pub open spec fn sale_phase(current_time: u64, durations: Seq<u64>) -> int {
    sale_phase_from(current_time, durations, 0)
}

/// The sum of the first `n` of five lengths fits into 128 bits with room to spare.
proof fn lemma_phases_end_bound(durations: Seq<u64>, n: int)
    requires
        0 <= n <= durations.len(),
    ensures
        0 <= phases_end(durations, n) <= n * u64::MAX,
    decreases n,
{
    if n > 0 {
        lemma_phases_end_bound(durations, n - 1);
    }
}

/// Finds the phase that `current_time` falls into: the first phase `i` with
/// `current_time` before the end of the phases `0..=i`, and the last phase
/// when there is none. The lengths are added up without overflow, so the
/// last phase may be unbounded.
pub fn get_sale_phase(current_time: u64, phase_durations: &[u64; 5]) -> (phase: usize)
    ensures
        phase < 5,
        phase == sale_phase(current_time, phase_durations@),
        forall|n: int| 1 <= n <= phase ==> current_time >= #[trigger] phases_end(phase_durations@, n),
        phase < 4 ==> current_time < phases_end(phase_durations@, phase + 1),
{
    let mut elapsed_time: u128 = 0;
    let mut i: usize = 0;
    while i < 4
        invariant
            i <= 4,
            elapsed_time == phases_end(phase_durations@, i as int),
            sale_phase(current_time, phase_durations@) == sale_phase_from(
                current_time,
                phase_durations@,
                i as int,
            ),
            forall|n: int| 1 <= n <= i ==> current_time >= #[trigger] phases_end(phase_durations@, n),
        decreases 4 - i,
    {
        proof {
            lemma_phases_end_bound(phase_durations@, i as int);
        }
        elapsed_time = elapsed_time + phase_durations[i] as u128;
        if (current_time as u128) < elapsed_time {
            return i;
        }
        i = i + 1;
    }
    i
}

} // verus!
