use dears::mutation::{ByDist, FlipBit, GaussianParams, Mutator, Shuffle};
use dears::{Error, Probability};
use rand_distr::Normal;

fn half() -> Probability {
    Probability::new(1, 2).unwrap()
}

fn two_fifths() -> Probability {
    Probability::new(2, 5).unwrap()
}

fn never() -> Probability {
    Probability::never()
}

fn always() -> Probability {
    Probability::always()
}

#[test]
fn gaussian() {
    let mut test_input = vec![1.0, 2.0, 3.0, 4.0];
    let mutator = ByDist::new(Normal::new(0.0, 1.0).unwrap(), half());
    mutator.mutate(&mut test_input).unwrap();
    println!("Gaussian:  {:?}", test_input);
}

#[test]
fn shuffle_indexes() {
    let mut test_input = vec![1.0, 2.0, 3.0, 4.0];
    let mutator = Shuffle { indpb: two_fifths() };
    mutator.mutate(&mut test_input).unwrap();
    println!("Shuffle:   {:?}", test_input);
}

#[test]
fn flip_bit() {
    let mut test_input = vec![false; 4];
    let mutator = FlipBit { indpb: two_fifths() };
    mutator.mutate(&mut test_input).unwrap();
    println!("Flip Bit:  {:?}", test_input);
}

#[test]
fn mutate_keeps_length_for_every_strategy() {
    let mut bools = vec![true, false, true];
    FlipBit { indpb: half() }.mutate(&mut bools).unwrap();
    assert_eq!(bools.len(), 3);

    let mut nums = vec![10, 20, 30, 40, 50];
    Shuffle { indpb: half() }.mutate(&mut nums).unwrap();
    assert_eq!(nums.len(), 5);

    let mut floats = vec![1.0, 2.0];
    ByDist::new(Normal::new(0.0, 1.0).unwrap(), half()).mutate(&mut floats).unwrap();
    assert_eq!(floats.len(), 2);
}

#[test]
fn gaussian_never_fires_leaves_genome_unchanged() {
    let original = vec![1.5, -2.25, 0.0, 4.0];
    let mut genome = original.clone();
    let mutator = ByDist::new(Normal::new(3.0, 2.0).unwrap(), never());
    mutator.mutate(&mut genome).unwrap();
    assert_eq!(genome, original);
}

#[test]
fn gaussian_always_fires_changes_every_element_and_centers_on_mean() {
    let mu = 0.5;
    let base = vec![1.0, 2.0, 3.0, 4.0];
    let mutator = ByDist::new(Normal::new(mu, 1.0).unwrap(), always());
    let runs = 3000;
    let mut delta_sum = 0.0;
    let mut delta_count = 0usize;
    for _ in 0..runs {
        let mut genome = base.clone();
        mutator.mutate(&mut genome).unwrap();
        for (after, before) in genome.iter().zip(base.iter()) {
            assert_ne!(after, before, "an element escaped a mutation that always fires");
            delta_sum += after - before;
            delta_count += 1;
        }
    }
    let mean_delta = delta_sum / delta_count as f64;
    assert!(
        (mean_delta - mu).abs() < 0.1,
        "empirical mean delta {} strays from mu {}",
        mean_delta,
        mu
    );
}

#[test]
fn flip_bit_always_fires_complements_genome() {
    let original = vec![true, false, false, true, false];
    let mut genome = original.clone();
    FlipBit { indpb: always() }.mutate(&mut genome).unwrap();
    let complement: Vec<bool> = original.iter().map(|b| !b).collect();
    assert_eq!(genome, complement);
}

#[test]
fn flip_bit_never_fires_leaves_genome_unchanged() {
    let original = vec![true, false, true];
    let mut genome = original.clone();
    FlipBit { indpb: never() }.mutate(&mut genome).unwrap();
    assert_eq!(genome, original);
}

#[test]
fn shuffle_preserves_the_multiset_of_elements() {
    let original = vec![3, 1, 4, 1, 5, 9, 2, 6];
    let mut genome = original.clone();
    Shuffle { indpb: half() }.mutate(&mut genome).unwrap();
    let mut left = genome.clone();
    let mut right = original.clone();
    left.sort();
    right.sort();
    assert_eq!(left, right);
}

#[test]
fn shuffle_refuses_pools_smaller_than_two() {
    let mut empty: Vec<i32> = vec![];
    assert_eq!(
        Shuffle { indpb: half() }.mutate(&mut empty),
        Err(Error::ShufflePoolTooSmall)
    );

    let mut single = vec![7];
    assert_eq!(
        Shuffle { indpb: always() }.mutate(&mut single),
        Err(Error::ShufflePoolTooSmall)
    );
    assert_eq!(single, vec![7]);
}

#[test]
fn shuffle_partner_is_never_the_index_itself() {
    for size in 2..7usize {
        for idx in 0..size {
            for raw in 0..(size - 1) {
                let partner = dears::mutation::swap_partner(idx, size, raw);
                assert_ne!(partner, idx);
                assert!(partner < size);
            }
        }
    }
}

#[test]
fn gaussian_params_reject_bad_stddev() {
    assert_eq!(
        GaussianParams::new(0.0, -1.0).err(),
        Some(Error::InvalidDistribution)
    );
    assert_eq!(
        GaussianParams::new(0.0, 0.0).err(),
        Some(Error::InvalidDistribution)
    );
    assert_eq!(
        GaussianParams::new(0.0, f64::NAN).err(),
        Some(Error::InvalidDistribution)
    );
    assert_eq!(
        GaussianParams::new(0.0, f64::INFINITY).err(),
        Some(Error::InvalidDistribution)
    );
    assert!(GaussianParams::new(0.0, 1.0).is_ok());
}
