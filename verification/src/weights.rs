//! Drawing from a list of weighted entries.

use vstd::prelude::*;

verus! {

/// The sum of the first `n` weights.
pub open spec fn weight_sum(weights: Seq<u32>, n: int) -> int
    decreases n,
{
    if n <= 0 {
        0
    } else {
        weight_sum(weights, n - 1) + weights[n - 1]
    }
}

/// The sum of the weights grows with the number of weights summed.
pub proof fn lemma_weight_sum_monotonic(weights: Seq<u32>, a: int, b: int)
    requires
        0 <= a <= b,
    ensures
        weight_sum(weights, a) <= weight_sum(weights, b),
    decreases b - a,
{
    if a < b {
        lemma_weight_sum_monotonic(weights, a, b - 1);
    }
}

/// Picks the entry that a roll falls on, where each entry takes up as much of
/// the range of rolls as its weight: the first entry for rolls below its
/// weight, the second for the rolls after those, and so on; none for a roll
/// at or beyond the sum of all weights.
pub fn weighted_index(weights: &Vec<u32>, roll: u32) -> (r: Option<usize>)
    ensures
        match r {
            Some(i) => i < weights@.len() && weight_sum(weights@, i as int) <= roll < weight_sum(
                weights@,
                i + 1,
            ),
            None => weight_sum(weights@, weights@.len() as int) <= roll,
        },
{
    let mut cumulative: u128 = 0;
    let mut i: usize = 0;
    while i < weights.len()
        invariant
            i <= weights.len(),
            cumulative == weight_sum(weights@, i as int),
            cumulative <= roll,
        decreases weights.len() - i,
    {
        cumulative = cumulative + weights[i] as u128;
        if (roll as u128) < cumulative {
            return Some(i);
        }
        i += 1;
    }
    None
}

} // verus!
