//! The patch model of a modular synthesizer editor: modules on a grid, their
//! parameters, and the editing rules that act on them.
use vstd::prelude::*;

pub mod grid;
pub mod kind;
pub mod text;
pub mod param;
pub mod body;
pub mod surface;
pub mod copy;
pub mod nested;
pub mod telemetry;
pub mod instrument;
pub mod state;
pub mod palette;
pub mod handoff;
pub mod samples;
pub mod labels;

verus! {

} // verus!
