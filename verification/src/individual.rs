//! The fitness-less population container: genomes and a bound mutation
//! and crossover strategy, for search loops that keep fitness bookkeeping
//! entirely on the caller's side.

use vstd::prelude::*;

use crate::crossover::Crossover;
use crate::error::Error;
use crate::mutation::Mutator;
use crate::random::{coin, Probability};

verus! {

/// Owns genomes of a uniform representation together with one chosen
/// mutation strategy and one chosen crossover strategy.
pub struct Population<T, M, C> where M: Mutator<T>, C: Crossover<T> {
    individuals: Vec<Vec<T>>,
    mutator: M,
    crossover: C,
}

impl<T, M, C> Population<T, M, C> where M: Mutator<T>, C: Crossover<T> {
    pub closed spec fn genomes(&self) -> Seq<Vec<T>> {
        self.individuals@
    }

    /// Builds a population from a genome collection and one instance of
    /// each operator.
    pub fn new(individuals: Vec<Vec<T>>, mutator: M, crossover: C) -> (p: Population<T, M, C>)
        ensures
            p.genomes() == individuals@,
    {
        Population { individuals, mutator, crossover }
    }

    /// The genomes, for the caller to read or to build the next
    /// generation from.
    pub fn individuals(&self) -> (r: &Vec<Vec<T>>)
        ensures
            r@ == self.genomes(),
    {
        &self.individuals
    }

    /// For every genome, with independent probability `indpb`, invokes
    /// the bound mutation strategy on it; genome count and each genome's
    /// length are preserved, also when a strategy reports a failure,
    /// which stops the pass and is handed to the caller.
    pub fn mutate_with_chance(&mut self, indpb: Probability) -> (r: Result<(), Error>)
        ensures
            final(self).genomes().len() == old(self).genomes().len(),
            forall|i: int|
                0 <= i < old(self).genomes().len() ==> (#[trigger] final(self).genomes()[i])@.len()
                    == old(self).genomes()[i]@.len(),
            indpb.is_never() ==> final(self).genomes() == old(self).genomes() && r == Ok::<
                (),
                Error,
            >(()),
    {
        let n = self.individuals.len();
        for i in 0..n
            invariant
                n == self.individuals@.len(),
                n == old(self).genomes().len(),
                forall|j: int|
                    0 <= j < n ==> (#[trigger] self.individuals@[j])@.len() == old(
                        self,
                    ).genomes()[j]@.len(),
                indpb.is_never() ==> self.individuals@ == old(self).genomes(),
        {
            if coin(&indpb) {
                match self.mutator.mutate(&mut self.individuals[i]) {
                    Ok(_) => {},
                    Err(e) => {
                        return Err(e);
                    },
                }
            }
        }
        Ok(())
    }
}

} // verus!
