//! The two places where the crate asks the `rand` crate for a random choice.
//!
//! Neither function is verified: each states what `rand` promises of the
//! call it makes.
use vstd::prelude::*;

verus! {

/// Calls `rand::Rng::gen_range` on the thread-local generator of `rand`, with
/// the half-open range from zero to `bound`.
///
/// Claimed of it: the number that comes back lies in that range. `gen_range`
/// panics on an empty range, so `bound` must be positive. Which number comes
/// back depends on the generator, so two calls may differ.
#[verifier::external_body]
pub(crate) fn random_index(bound: usize) -> (index: usize)
    requires
        bound > 0,
    ensures
        index < bound,
{
    rand::Rng::gen_range(&mut rand::thread_rng(), 0..bound)
}

/// Calls `rand::seq::SliceRandom::choose` on `options`, with the thread-local
/// generator of `rand`, and copies the number out of the reference.
///
/// Claimed of it: nothing is chosen exactly when `options` is empty, and what
/// is chosen is one of the entries. Which entry depends on the generator.
#[verifier::external_body]
pub(crate) fn choose_one(options: &Vec<usize>) -> (choice: Option<usize>)
    ensures
        choice is None <==> options@.len() == 0,
        choice matches Some(c) ==> options@.contains(c),
{
    rand::seq::SliceRandom::choose(options.as_slice(), &mut rand::thread_rng()).copied()
}

} // verus!
