use dears::crossover::OnePoint;
use dears::mutation::{FlipBit, Shuffle};
use dears::selection::TournamentSelection;
use dears::{Error, Probability};

#[test]
fn population_refuses_misaligned_fitnesses() {
    let genomes = vec![vec![true, false], vec![false, false]];
    let fitnesses = vec![1.0];
    let result = dears::population::Population::new(
        genomes,
        fitnesses,
        FlipBit { indpb: Probability::always() },
        OnePoint {},
        TournamentSelection::new(2).unwrap(),
    );
    assert!(matches!(result, Err(Error::LengthMismatch)));
}

#[test]
fn population_batch_mutation_composes_outer_and_inner_gates() {
    let genomes = vec![vec![true, false], vec![false, true, true]];
    let fitnesses = vec![1.0, 2.0];
    let mut population = dears::population::Population::new(
        genomes,
        fitnesses,
        FlipBit { indpb: Probability::always() },
        OnePoint {},
        TournamentSelection::new(1).unwrap(),
    )
    .unwrap();

    // a closed outer gate keeps every genome untouched, whatever the
    // strategy's own rate
    population.mutate_with_chance(Probability::never()).unwrap();
    assert_eq!(
        population.individuals(),
        &vec![vec![true, false], vec![false, true, true]]
    );

    // an open outer gate hands every genome to the strategy, which here
    // always fires: everything is complemented
    population.mutate_with_chance(Probability::always()).unwrap();
    assert_eq!(
        population.individuals(),
        &vec![vec![false, true], vec![true, false, false]]
    );
}

#[test]
fn population_select_delegates_to_the_bound_selector() {
    let genomes = vec![vec![1, 2], vec![3, 4], vec![5, 6]];
    let fitnesses = vec![0.5, 2.5, 1.5];
    let population = dears::population::Population::new(
        genomes,
        fitnesses,
        Shuffle { indpb: Probability::new(1, 2).unwrap() },
        OnePoint {},
        TournamentSelection::new(2).unwrap(),
    )
    .unwrap();
    let chosen = population.select(8).unwrap();
    assert_eq!(chosen.len(), 8);
    assert!(chosen.iter().all(|&i| i < 3));
    assert_eq!(population.select(0).unwrap(), vec![]);
}

#[test]
fn population_set_fitnesses_checks_alignment() {
    let genomes = vec![vec![true], vec![false]];
    let mut population = dears::population::Population::new(
        genomes,
        vec![1.0, 2.0],
        FlipBit { indpb: Probability::never() },
        OnePoint {},
        TournamentSelection::new(1).unwrap(),
    )
    .unwrap();
    assert_eq!(population.set_fitnesses(vec![5.0]), Err(Error::LengthMismatch));
    assert_eq!(population.set_fitnesses(vec![5.0, 6.0]), Ok(()));
}

#[test]
fn fitness_less_population_mutates_in_place() {
    let genomes = vec![vec![false, false], vec![true, true]];
    let mut population = dears::individual::Population::new(
        genomes,
        FlipBit { indpb: Probability::always() },
        OnePoint {},
    );
    population.mutate_with_chance(Probability::always()).unwrap();
    assert_eq!(
        population.individuals(),
        &vec![vec![true, true], vec![false, false]]
    );
    population.mutate_with_chance(Probability::never()).unwrap();
    assert_eq!(
        population.individuals(),
        &vec![vec![true, true], vec![false, false]]
    );
}
