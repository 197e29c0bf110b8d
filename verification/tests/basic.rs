use dears::{add, Error, Probability};

#[test]
fn example() {}

#[test]
fn add_adds() {
    assert_eq!(add(2, 3), 5);
    assert_eq!(add(0, 0), 0);
}

#[test]
fn probability_accepts_valid_ratios() {
    assert!(Probability::new(0, 1).is_ok());
    assert!(Probability::new(1, 2).is_ok());
    assert!(Probability::new(7, 7).is_ok());
}

#[test]
fn probability_rejects_bad_ratios() {
    assert_eq!(Probability::new(3, 2), Err(Error::InvalidProbability));
    assert_eq!(Probability::new(1, 0), Err(Error::InvalidProbability));
    assert_eq!(Probability::new(0, 0), Err(Error::InvalidProbability));
}
