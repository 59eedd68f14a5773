//! The engine's only source of randomness: thin trusted wrappers over the
//! `rand` crate. Everything proved about the engine holds for every value
//! these can return.

use vstd::prelude::*;

use rand::seq::SliceRandom;
use rand::Rng;

use crate::particles::Rgba;

verus! {

/// Relies on `rand::Rng::gen_range` over the inclusive range `lo..=hi`: it
/// panics only on an empty range and returns a value inside the range.
#[verifier::external_body]
pub(crate) fn random_in_range(lo: i32, hi: i32) -> (r: i32)
    requires
        lo <= hi,
    ensures
        lo <= r <= hi,
{
    let mut rng = rand::thread_rng();
    rng.gen_range(lo..=hi)
}

/// Relies on `rand::seq::SliceRandom::choose`: it returns `None` exactly when
/// the slice is empty, and otherwise a reference to one of its elements.
#[verifier::external_body]
pub(crate) fn choose_color(colors: &Vec<Rgba>) -> (r: Option<Rgba>)
    ensures
        match r {
            Some(c) => colors@.contains(c),
            None => colors@.len() == 0,
        },
{
    let mut rng = rand::thread_rng();
    colors.as_slice().choose(&mut rng).copied()
}

} // verus!
