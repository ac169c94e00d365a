//! Seeds of a population: for each index, the signed number of epsilons by
//! which its first angle is moved off the shared start angle, and its colour.
use vstd::prelude::*;
use crate::color::{Color, color_of_index, cycle_colors};

verus! {

/// The index whose first angle is moved by one epsilon less than the centre
/// of the sweep; the sweep is `2 * n - SWEEP_CENTER` epsilons.
pub const SWEEP_CENTER: i64 = 999;

/// Number of bodies in the simulated population.
pub const POPULATION_SIZE: usize = 1500;

/// Bound on the population size, which keeps every index and offset within
/// the integer types on any target.
pub const MAX_POPULATION: usize = 0x4000_0000;

/// What sets one body apart from the others at creation.
#[derive(Clone, Copy, Debug, PartialEq, Eq, Structural)]
pub struct Seed {
    /// The first angle is the shared start angle plus `offset` epsilons.
    pub offset: i64,
    /// Colour, fixed for the body's lifetime.
    pub color: Color,
}

/// The number of epsilons added to the first angle of the body at `n`.
pub open spec fn spec_offset(n: int) -> int {
    2 * n - SWEEP_CENTER
}

/// The seed of the body at index `n`.
pub open spec fn spec_seed(n: nat) -> Seed {
    Seed { offset: spec_offset(n as int) as i64, color: color_of_index(n) }
}

/// The number of epsilons added to the first angle of the body at `n`.
pub fn offset(n: usize) -> (r: i64)
    requires
        n < MAX_POPULATION,
    ensures
        r == spec_offset(n as int),
{
    2 * (n as i64) - SWEEP_CENTER
}

/// The seeds of a population of `count` bodies, in index order.
pub fn population_seeds(count: usize) -> (r: Vec<Seed>)
    requires
        count <= MAX_POPULATION,
    ensures
        r@.len() == count,
        forall|i: int| 0 <= i < count ==> #[trigger] r@[i] == spec_seed(i as nat),
{
    let colors = cycle_colors(count);
    let mut out: Vec<Seed> = Vec::new();
    let mut i: usize = 0;
    while i < count
        invariant
            i <= count,
            count <= MAX_POPULATION,
            colors@.len() == count,
            forall|j: int| 0 <= j < count ==> #[trigger] colors@[j] == color_of_index(j as nat),
            out@.len() == i,
            forall|j: int| 0 <= j < i ==> #[trigger] out@[j] == spec_seed(j as nat),
        decreases count - i,
    {
        out.push(Seed { offset: offset(i), color: colors[i] });
        i = i + 1;
    }
    out
}

/// Neighbouring bodies start two epsilons apart, the later one higher; so
/// bodies `k` places apart start `2 * k` epsilons apart.
pub proof fn lemma_offsets_spaced(n: nat, k: nat)
    ensures
        spec_offset(n + k as int) - spec_offset(n as int) == 2 * k,
{
}

/// The sweep is symmetric about the shared start angle: the bodies at `n`
/// and at `SWEEP_CENTER - n` are moved by opposite amounts.
pub proof fn lemma_offsets_symmetric(n: int)
    ensures
        spec_offset(SWEEP_CENTER - n) == -spec_offset(n),
{
}

} // verus!
