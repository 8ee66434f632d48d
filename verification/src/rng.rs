//! The two sources of chance: the draw of an integer from a range, and the
//! shuffle of a list. Nothing else in the library is random.

use rand::seq::SliceRandom;
use rand::Rng;
use vstd::prelude::*;

verus! {

/// Draws an integer from `low..=high` by `Rng::gen_range` on the generator
/// that `rand::thread_rng` hands out. `gen_range` panics on an empty range,
/// which `requires` leaves out; for any other range it returns a value of the
/// range, and that is all the contract claims: which value comes back is
/// chance, and two draws from one range may differ. The generator is seeded
/// from the operating system when a thread first asks for it, and `rand`
/// panics where the system has no randomness to give; nothing here can rule
/// that out.
#[verifier::external_body]
pub(crate) fn random_between(low: i64, high: i64) -> (r: i64)
    requires
        low <= high,
    ensures
        low <= r <= high,
{
    rand::thread_rng().gen_range(low..=high)
}

/// Puts a list of indices into a random order by `SliceRandom::shuffle` with
/// the generator that `rand::thread_rng` hands out. `shuffle` only swaps
/// elements of the slice, so the list holds afterwards what it held before,
/// each index as often as before; that is what the contract claims, and
/// nothing of the order. As with a draw, `rand` panics where the operating
/// system has no randomness to seed the generator with; nothing here can
/// rule that out.
#[verifier::external_body]
pub(crate) fn shuffle_indices(list: &mut Vec<usize>)
    ensures
        final(list)@.to_multiset() == old(list)@.to_multiset(),
{
    list.shuffle(&mut rand::thread_rng());
}

} // verus!
