//! Integer core of a double-pendulum population: the hue cycle that colours
//! each body, and the per-index seeds from which the population is built.
use vstd::prelude::*;

pub mod color;
pub mod population;

verus! {

} // verus!
