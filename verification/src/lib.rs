//! Procedures of a Blood Bowl game engine: the Prayers to Nuffle and the favours that they
//! grant, over a model of the game state that they read and change.
use vstd::prelude::*;

pub mod builder;
pub mod dice;
pub mod gamestate;
pub mod laws;
pub mod model;
pub mod nuffle_prayers_procs;
pub mod player;
pub mod procedures;

verus! {

} // verus!
