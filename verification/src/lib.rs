//! Building blocks for population-based stochastic search: per-element
//! mutation operators, pairwise crossover, and fitness-based selection,
//! together with a population container that composes them.

use vstd::prelude::*;

pub mod crossover;
pub mod individual;
pub mod mutation;
pub mod population;
pub mod selection;
mod error;
mod random;

pub use error::Error;
pub use random::Probability;

verus! {

/// Adds two counters, e.g. sizes of two sub-populations.
pub fn add(left: usize, right: usize) -> (sum: usize)
    requires
        left + right <= usize::MAX,
    ensures
        sum == left + right,
{
    left + right
}

} // verus!
