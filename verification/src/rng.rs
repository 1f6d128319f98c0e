//! The library's only random source: the `rand` crate's process-wide
//! generator, narrowed to the bounded draws the behavioural model consumes.

use vstd::prelude::*;

use rand::distributions::{Distribution, Standard};

verus! {

/// Relies on rand::random: a value of a type the standard distribution
/// covers. Nothing can be promised of the value drawn.
pub assume_specification<T>[ rand::random::<T> ]() -> (r: T)
    where
        Standard: Distribution<T>,
;

/// Draws a value uniform in `[0, 1000)` from the process random source.
pub fn random_permille() -> (r: u32)
    ensures
        r < 1000,
{
    let raw: u32 = rand::random::<u32>();
    raw % 1000
}

} // verus!
