//! Random choice among the addresses that are due for a connection attempt.

use rand::seq::IteratorRandom;
use vstd::prelude::*;

verus! {

/// Calls `IteratorRandom::choose_multiple` of `rand` on the items of
/// `candidates`, with the thread-local generator of `rand`. That function
/// fills a buffer with the first `amount` items and then lets each later
/// item take the place of a random one, or of none. So the result holds
/// `amount` items, or all of them if there are fewer; each is an item of
/// `candidates`, and none is taken twice from the same place. Where
/// `candidates` holds no more than `amount` items, the result is
/// `candidates` itself. Which items are chosen otherwise is left to chance.
#[verifier::external_body]
pub(crate) fn choose_multiple(candidates: Vec<usize>, amount: usize) -> (r: Vec<usize>)
    ensures
        r@.len() == (if candidates@.len() <= amount {
            candidates@.len()
        } else {
            amount as nat
        }),
        forall|i: int| 0 <= i < r@.len() ==> candidates@.contains(#[trigger] r@[i]),
        candidates@.no_duplicates() ==> r@.no_duplicates(),
        candidates@.len() <= amount ==> r@ == candidates@,
{
    candidates.into_iter().choose_multiple(&mut rand::thread_rng(), amount)
}

} // verus!
