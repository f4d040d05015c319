//! The two random draws that the engine makes, both through `rand`.

use rand::rngs::ThreadRng;
use rand::seq::SliceRandom;
use rand::Rng;
use vstd::prelude::*;

verus! {

/// `rand::rngs::ThreadRng`, the generator of the current thread. Nothing of
/// its state is visible to the verifier.
#[verifier::external_type_specification]
#[verifier::external_body]
pub struct ExThreadRng(ThreadRng);

/// Calls `Rng::gen_range` with two bounds. Unverified: `rand` documents that
/// the value lies in the half-open range from `low` to `high`, and that the
/// call panics unless `low < high`. Which value comes is left open.
#[verifier::external_body]
pub(crate) fn gen_range(rng: &mut ThreadRng, low: usize, high: usize) -> (r: usize)
    requires
        low < high,
    ensures
        low <= r < high,
{
    rng.gen_range(low, high)
}

/// Calls `SliceRandom::choose` on the items. Unverified: `rand` documents
/// that the result is one element of the slice, or `None` if the slice is
/// empty. Which element comes is left open.
#[verifier::external_body]
pub(crate) fn pick(rng: &mut ThreadRng, items: &Vec<i32>) -> (r: Option<i32>)
    ensures
        items@.len() == 0 ==> r.is_none(),
        items@.len() > 0 ==> r.is_some() && items@.contains(r.unwrap()),
{
    items.choose(rng).copied()
}

} // verus!
