//! Uniform sampling of positions, drawn through the rand crate.

use vstd::prelude::*;

verus! {

/// Relies on rand's `seq::index::sample`: it returns exactly `amount`
/// distinct indices drawn uniformly from `0..length`, in arbitrary order.
/// It panics when `amount > length`, which the precondition rules out.
#[verifier::external_body]
pub(crate) fn sample_indices(length: usize, amount: usize) -> (r: Vec<usize>)
    requires
        amount <= length,
    ensures
        r@.len() == amount,
        r@.no_duplicates(),
        forall|i: int| 0 <= i < r@.len() ==> r@[i] < length,
{
    rand::seq::index::sample(&mut rand::thread_rng(), length, amount).into_vec()
}

} // verus!
