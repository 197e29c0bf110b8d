//! The fitness-aware population container: genomes, a parallel vector of
//! fitness values, and one bound instance of each operator kind, with
//! batch operations over the whole population.

use vstd::prelude::*;

use crate::crossover::Crossover;
use crate::error::Error;
use crate::mutation::Mutator;
use crate::random::{coin, Probability};
use crate::selection::SelectMany;

verus! {

/// Owns genomes of a uniform representation, a fitness value for each
/// genome (index `i` of the fitnesses belongs to genome `i` — this
/// alignment holds after every batch operation), and exactly one chosen
/// mutation, crossover and selection strategy.
pub struct Population<T, M, C, S, F> where M: Mutator<T>, C: Crossover<T>, S: SelectMany<F> {
    individuals: Vec<Vec<T>>,
    fitnesses: Vec<F>,
    mutator: M,
    crossover: C,
    selector: S,
}

impl<T, M, C, S, F> Population<T, M, C, S, F> where
    M: Mutator<T>,
    C: Crossover<T>,
    S: SelectMany<F>,
 {
    pub closed spec fn genomes(&self) -> Seq<Vec<T>> {
        self.individuals@
    }

    pub closed spec fn fitness_view(&self) -> Seq<F> {
        self.fitnesses@
    }

    /// The parallel-array alignment: one fitness value per genome.
    pub open spec fn wf(&self) -> bool {
        self.genomes().len() == self.fitness_view().len()
    }

    /// Builds a population from aligned genome and fitness collections
    /// and one instance of each operator; misaligned collections are
    /// refused before anything is stored.
    pub fn new(
        individuals: Vec<Vec<T>>,
        fitnesses: Vec<F>,
        mutator: M,
        crossover: C,
        selector: S,
    ) -> (r: Result<Population<T, M, C, S, F>, Error>)
        ensures
            r matches Ok(p) ==> p.wf() && p.genomes() == individuals@ && p.fitness_view()
                == fitnesses@,
            r matches Err(e) ==> e == Error::LengthMismatch && individuals@.len()
                != fitnesses@.len(),
            individuals@.len() == fitnesses@.len() ==> r matches Ok(_),
    {
        if individuals.len() != fitnesses.len() {
            return Err(Error::LengthMismatch);
        }
        Ok(Population { individuals, fitnesses, mutator, crossover, selector })
    }

    /// The genomes, for the caller to read or to build the next
    /// generation from.
    pub fn individuals(&self) -> (r: &Vec<Vec<T>>)
        ensures
            r@ == self.genomes(),
    {
        &self.individuals
    }

    /// Replaces the fitness values wholesale, as the caller re-evaluates
    /// genomes between generations; a vector that does not align with the
    /// genomes is refused and nothing changes.
    pub fn set_fitnesses(&mut self, fitnesses: Vec<F>) -> (r: Result<(), Error>)
        requires
            old(self).wf(),
        ensures
            final(self).wf(),
            final(self).genomes() == old(self).genomes(),
            r matches Ok(_) ==> final(self).fitness_view() == fitnesses@,
            fitnesses@.len() == old(self).genomes().len() <==> r matches Ok(_),
            r matches Err(e) ==> e == Error::LengthMismatch && final(self).fitness_view() == old(
                self,
            ).fitness_view(),
    {
        if fitnesses.len() != self.individuals.len() {
            return Err(Error::LengthMismatch);
        }
        self.fitnesses = fitnesses;
        Ok(())
    }

    /// For every genome, with independent probability `indpb`, invokes
    /// the bound mutation strategy on it. This outer per-genome gate is a
    /// configuration knob of its own: it compounds with whatever
    /// per-element probability the strategy itself carries, so a strategy
    /// that fires elements at rate `p` inside a population gated at `q`
    /// perturbs elements at rate `p * q`.
    ///
    /// Genome count, each genome's length, the fitnesses and their
    /// alignment are all preserved, also when a strategy reports a
    /// failure, which stops the pass and is handed to the caller.
    pub fn mutate_with_chance(&mut self, indpb: Probability) -> (r: Result<(), Error>)
        requires
            old(self).wf(),
        ensures
            final(self).wf(),
            final(self).fitness_view() == old(self).fitness_view(),
            final(self).genomes().len() == old(self).genomes().len(),
            forall|i: int|
                0 <= i < old(self).genomes().len() ==> (#[trigger] final(self).genomes()[i])@.len()
                    == old(self).genomes()[i]@.len(),
            indpb.is_never() ==> final(self).genomes() == old(self).genomes() && r == Ok::<
                (),
                Error,
            >(()),
    {
        let n = self.individuals.len();
        for i in 0..n
            invariant
                n == self.individuals@.len(),
                n == old(self).genomes().len(),
                old(self).wf(),
                self.fitnesses@ == old(self).fitness_view(),
                forall|j: int|
                    0 <= j < n ==> (#[trigger] self.individuals@[j])@.len() == old(
                        self,
                    ).genomes()[j]@.len(),
                indpb.is_never() ==> self.individuals@ == old(self).genomes(),
        {
            if coin(&indpb) {
                match self.mutator.mutate(&mut self.individuals[i]) {
                    Ok(_) => {},
                    Err(e) => {
                        return Err(e);
                    },
                }
            }
        }
        Ok(())
    }

    /// Chooses `n` genome indices to propagate, by the bound selection
    /// strategy over the stored fitnesses; selecting never touches the
    /// genomes or the fitnesses.
    pub fn select(&self, n: usize) -> (r: Result<Vec<usize>, Error>)
        requires
            self.wf(),
        ensures
            r matches Ok(v) ==> v@.len() == n && (forall|k: int|
                0 <= k < n ==> (#[trigger] v@[k]) < self.genomes().len()),
            n == 0 ==> r matches Ok(_),
            n > 0 && self.genomes().len() == 0 ==> r == Err::<Vec<usize>, Error>(
                Error::EmptySelectionPool,
            ),
    {
        self.selector.select_n(&self.fitnesses, n)
    }
}

} // verus!
