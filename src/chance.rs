//! Random draws, made by the `rand` crate.
use vstd::prelude::*;

verus! {

/// Relies on `rand::random`: a value drawn from the thread-local generator.
/// Nothing is known of what it returns.
pub assume_specification<T>[ rand::random::<T> ]() -> T
    where
        rand::distributions::Standard: rand::distributions::Distribution<T>,
;

/// Relies on `rand::Rng::gen_range` on the thread-local generator from
/// `rand::thread_rng`: a number drawn uniformly from `0..faces`. It panics
/// only on an empty range, which `faces > 0` rules out.
#[verifier::external_body]
pub(crate) fn draw_below(faces: u64) -> (r: u64)
    requires
        faces > 0,
    ensures
        r < faces,
{
    rand::Rng::gen_range(&mut rand::thread_rng(), 0..faces)
}

} // verus!
