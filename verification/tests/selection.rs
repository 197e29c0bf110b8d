use dears::selection::{SelBest, SelectMany, SelectOne, TournamentSelection, tournament_winner};
use dears::Error;

#[test]
fn winner_of_a_singleton_tournament_is_the_lone_candidate() {
    // a tournament of size one reports whatever index was drawn, which
    // makes size-one tournament selection uniform index selection
    let fitnesses = vec![0.5, 9.0, 3.25, 7.5];
    for idx in 0..fitnesses.len() {
        assert_eq!(tournament_winner(&fitnesses, &vec![idx]), Ok(idx));
    }
}

#[test]
fn winner_holds_the_greatest_fitness_among_candidates() {
    let fitnesses = vec![1.0, 5.0, 3.0, 4.0];
    assert_eq!(tournament_winner(&fitnesses, &vec![0, 2, 3]), Ok(3));
    assert_eq!(tournament_winner(&fitnesses, &vec![2, 1, 0]), Ok(1));
    // ties go to the earliest candidate
    assert_eq!(tournament_winner(&fitnesses, &vec![3, 2, 3]), Ok(3));
}

#[test]
fn winner_surfaces_unordered_fitness_comparisons() {
    let fitnesses = vec![f64::NAN, 1.0];
    assert_eq!(
        tournament_winner(&fitnesses, &vec![0, 1]),
        Err(Error::UnorderedFitness)
    );
}

#[test]
fn single_fitness_always_selects_index_zero() {
    let fitnesses = vec![42.0];
    for size in 1..6usize {
        let selector = TournamentSelection::new(size).unwrap();
        assert_eq!(selector.select(&fitnesses), Ok(0));
    }
}

#[test]
fn empty_pool_is_refused_for_every_tournament_size() {
    let fitnesses: Vec<f64> = vec![];
    for size in 1..6usize {
        let selector = TournamentSelection::new(size).unwrap();
        assert_eq!(selector.select(&fitnesses), Err(Error::EmptySelectionPool));
    }
    assert_eq!(
        SelBest {}.select(&fitnesses),
        Err(Error::EmptySelectionPool)
    );
}

#[test]
fn tournament_size_zero_is_refused_at_construction() {
    assert_eq!(TournamentSelection::new(0).err(), Some(Error::InvalidTournamentSize));
}

#[test]
fn tournament_selection_stays_in_range() {
    let fitnesses = vec![3.0, 1.0, 2.0];
    let selector = TournamentSelection::new(2).unwrap();
    for _ in 0..200 {
        let chosen = selector.select(&fitnesses).unwrap();
        assert!(chosen < fitnesses.len());
    }
}

#[test]
fn select_n_returns_the_requested_count() {
    let fitnesses = vec![3.0, 1.0, 2.0];
    let selector = TournamentSelection::new(2).unwrap();
    let chosen = selector.select_n(&fitnesses, 10).unwrap();
    assert_eq!(chosen.len(), 10);
    assert!(chosen.iter().all(|&i| i < fitnesses.len()));
    assert_eq!(selector.select_n(&fitnesses, 0).unwrap(), vec![]);
}

#[test]
fn select_n_on_an_empty_pool_is_refused() {
    let fitnesses: Vec<f64> = vec![];
    let selector = TournamentSelection::new(3).unwrap();
    assert_eq!(
        selector.select_n(&fitnesses, 2),
        Err(Error::EmptySelectionPool)
    );
}

#[test]
fn sel_best_picks_the_highest_fitness() {
    assert_eq!(SelBest {}.select(&vec![1.0, 3.0, 2.0]), Ok(1));
    assert_eq!(SelBest {}.select(&vec![-1.5, -0.5, -2.0]), Ok(1));
    assert_eq!(SelBest {}.select(&vec![9.0]), Ok(0));
}

#[test]
fn sel_best_breaks_ties_toward_the_earliest_index() {
    assert_eq!(SelBest {}.select(&vec![2.0, 2.0]), Ok(0));
    assert_eq!(SelBest {}.select(&vec![1.0, 5.0, 5.0]), Ok(1));
}

#[test]
fn sel_best_surfaces_unordered_fitness_comparisons() {
    assert_eq!(
        SelBest {}.select(&vec![1.0, f64::NAN]),
        Err(Error::UnorderedFitness)
    );
}

#[test]
fn integer_fitnesses_select_too() {
    let fitnesses: Vec<u32> = vec![4, 9, 7];
    assert_eq!(SelBest {}.select(&fitnesses), Ok(1));
}

#[test]
fn size_one_tournament_never_consults_fitnesses() {
    // with a single participant there is nothing to compare, so even an
    // unordered fitness vector cannot fail the draw
    let fitnesses = vec![f64::NAN, f64::NAN, f64::NAN];
    let selector = TournamentSelection::new(1).unwrap();
    for _ in 0..100 {
        let chosen = selector.select(&fitnesses).unwrap();
        assert!(chosen < fitnesses.len());
    }
}
