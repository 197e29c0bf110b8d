use vstd::prelude::*;

verus! {

/// Why an operator construction or invocation was refused.
///
/// Construction-time conditions (`InvalidDistribution`, `InvalidProbability`,
/// `InvalidTournamentSize`) are raised before any element is touched;
/// call-time conditions name the precondition that failed, so a caller can
/// tell a pool that is too small from an empty one; `UnorderedFitness` marks
/// a fitness comparison that produced no ordering (for instance a
/// floating-point NaN) and is never silently treated as a tie.
#[derive(Clone, Copy, Debug, PartialEq, Eq, Structural)]
pub enum Error {
    /// A noise distribution was asked for with invalid parameters,
    /// such as a non-positive standard deviation.
    InvalidDistribution,
    /// A probability ratio had a zero denominator or was above one.
    InvalidProbability,
    /// A tournament was configured with no participants.
    InvalidTournamentSize,
    /// The two genomes overlap in fewer than two positions, so no
    /// non-trivial crossover point exists.
    TooShortForCrossover,
    /// Selection was asked to choose from an empty fitness vector.
    EmptySelectionPool,
    /// A shuffle needs at least two elements to have a swap partner.
    ShufflePoolTooSmall,
    /// Two fitness values did not compare under the fitness ordering.
    UnorderedFitness,
    /// Two collections that must stay index-aligned differ in length.
    LengthMismatch,
}

} // verus!
