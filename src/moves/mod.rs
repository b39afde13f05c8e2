//! Moves. Variants shape their moves differently (a piece placed from a
//! player's supply has no origin square; a move may cross between boards),
//! so the common trait asks for nothing yet.

use vstd::prelude::*;

pub mod standard;

verus! {

/// A move of some variant.
pub trait Move {

}

} // verus!
