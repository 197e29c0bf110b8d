//! The random-sampling boundary: an exact probability for "does this event
//! fire", a uniform index draw, and a draw from a caller-chosen distribution.
//! Every operator consumes randomness only through this module.

use vstd::prelude::*;

use crate::error::Error;
use rand::Rng;

verus! {

/// A per-element firing probability, kept as the exact ratio `num / den`
/// with `0 <= num <= den` and `den >= 1`, so that the two boundary cases
/// (never fires, always fires) are exact rather than approximate.
#[derive(Clone, Copy, Debug, PartialEq, Eq, Structural)]
pub struct Probability {
    num: u64,
    den: u64,
}

impl Probability {
    #[verifier::type_invariant]
    pub closed spec fn wf(&self) -> bool {
        1 <= self.den && self.num <= self.den
    }

    pub closed spec fn num_spec(&self) -> u64 {
        self.num
    }

    pub closed spec fn den_spec(&self) -> u64 {
        self.den
    }

    /// The event fires with probability zero.
    pub open spec fn is_never(&self) -> bool {
        self.num_spec() == 0
    }

    /// The event fires with probability one.
    pub open spec fn is_always(&self) -> bool {
        self.num_spec() == self.den_spec()
    }

    /// Builds the probability `num / den`; a zero denominator or a ratio
    /// above one is rejected before any operator can be built from it.
    pub fn new(num: u64, den: u64) -> (r: Result<Probability, Error>)
        ensures
            match r {
                Ok(p) => {
                    &&& num <= den
                    &&& 1 <= den
                    &&& p.num_spec() == num
                    &&& p.den_spec() == den
                },
                Err(e) => {
                    &&& e == Error::InvalidProbability
                    &&& (den == 0 || num > den)
                },
            },
    {
        if den == 0 || num > den {
            Err(Error::InvalidProbability)
        } else {
            Ok(Probability { num, den })
        }
    }

    /// The probability that never fires.
    pub fn never() -> (p: Probability)
        ensures
            p.is_never(),
    {
        Probability { num: 0, den: 1 }
    }

    /// The probability that always fires.
    pub fn always() -> (p: Probability)
        ensures
            p.is_always(),
    {
        Probability { num: 1, den: 1 }
    }
}

/// Draws a uniform value below `bound`.
///
/// Relies on `rand::Rng::gen_range` over a fresh thread-local generator:
/// the draw is uniform in `[0, bound)`.
#[verifier::external_body]
fn rand_u64_below(bound: u64) -> (x: u64)
    requires
        1 <= bound,
    ensures
        x < bound,
{
    rand::thread_rng().gen_range(0..bound)
}

/// Decides whether an event with probability `p` fires: a uniform draw
/// below the denominator lands under the numerator with probability
/// `num / den`, so the two boundary probabilities are exact — a zero
/// numerator can never fire and a full one always does.
pub(crate) fn coin(p: &Probability) -> (fired: bool)
    ensures
        p.is_never() ==> !fired,
        p.is_always() ==> fired,
{
    proof {
        use_type_invariant(p);
    }
    let x = rand_u64_below(p.den);
    x < p.num
}

/// Draws a uniform index below `bound`.
///
/// Relies on `rand::Rng::gen_range` over a fresh thread-local generator:
/// the draw lies in `[0, bound)`.
#[verifier::external_body]
pub(crate) fn rand_index(bound: usize) -> (i: usize)
    requires
        1 <= bound,
    ensures
        i < bound,
{
    rand::thread_rng().gen_range(0..bound)
}

/// Draws one sample from a caller-chosen distribution.
///
/// Relies on `rand::distributions::Distribution::sample` over a fresh
/// thread-local generator; nothing is promised of the drawn value.
#[verifier::external_body]
pub(crate) fn draw<F, D: rand::distributions::Distribution<F>>(dist: &D) -> F {
    dist.sample(&mut rand::thread_rng())
}

} // verus!
