use vstd::prelude::*;

pub mod map;
pub mod player;
pub mod sign;
pub mod ticker;
pub mod tile;

verus! {

} // verus!
