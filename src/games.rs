//! The games bundled with the core, each a [`crate::engine::Game`].

pub mod pong;
pub mod battleship;
pub mod hangman;
pub mod rand_num;
pub mod poker;

use vstd::prelude::*;

verus! {

/// Relies on rand::random_range: a value drawn from `lo..hi`, which must not
/// be empty (it panics on an empty range).
#[verifier::external_body]
pub(crate) fn random_in(lo: u32, hi: u32) -> (r: u32)
    requires
        lo < hi,
    ensures
        lo <= r < hi,
{
    rand::random_range(lo..hi)
}

} // verus!
