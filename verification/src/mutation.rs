//! In-place mutation strategies: Gaussian and general distribution-driven
//! noise for numeric genomes, index shuffling for any genome, and bit
//! flipping for boolean genomes. No strategy ever changes a genome's length.

use vstd::prelude::*;

use crate::error::Error;
use crate::random::{coin, draw, rand_index, Probability};

verus! {

/// An in-place mutation strategy over genomes with elements of type `T`.
///
/// Every strategy leaves the genome's length unchanged, whether it
/// succeeds or reports a precondition failure.
pub trait Mutator<T> {
    fn mutate(&self, genome: &mut Vec<T>) -> (r: Result<(), Error>)
        ensures
            final(genome)@.len() == old(genome)@.len(),
    ;
}

/// Flips random elements of a boolean genome, each with independent
/// probability `indpb`.
pub struct FlipBit {
    pub indpb: Probability,
}

impl Mutator<bool> for FlipBit {
    fn mutate(&self, genome: &mut Vec<bool>) -> (r: Result<(), Error>)
        ensures
            r == Ok::<(), Error>(()),
            self.indpb.is_never() ==> final(genome)@ == old(genome)@,
            self.indpb.is_always() ==> forall|i: int|
                0 <= i < old(genome)@.len() ==> final(genome)@[i] == !old(genome)@[i],
    {
        let n = genome.len();
        for i in 0..n
            invariant
                n == genome@.len(),
                n == old(genome)@.len(),
                forall|j: int| i <= j < n ==> genome@[j] == old(genome)@[j],
                self.indpb.is_never() ==> genome@ == old(genome)@,
                self.indpb.is_always() ==> forall|j: int|
                    0 <= j < i ==> genome@[j] == !old(genome)@[j],
        {
            if coin(&self.indpb) {
                let b = genome[i];
                genome.set(i, !b);
            }
        }
        Ok(())
    }
}

/// Swaps positions `i` and `j` of `v`.
///
/// Relies on `<[T]>::swap`: the two positions exchange their elements and
/// every other position is untouched.
#[verifier::external_body]
fn swap_in_place<T>(v: &mut Vec<T>, i: usize, j: usize)
    requires
        i < old(v).len(),
        j < old(v).len(),
    ensures
        final(v)@ == old(v)@.update(i as int, old(v)@[j as int]).update(
            j as int,
            old(v)@[i as int],
        ),
{
    v.swap(i, j);
}

/// Exchanging two positions of a sequence never changes its multiset of
/// elements.
proof fn lemma_swap_multiset<T>(s: Seq<T>, i: int, j: int)
    requires
        0 <= i < s.len(),
        0 <= j < s.len(),
        i != j,
    ensures
        s.update(i, s[j]).update(j, s[i]).to_multiset() == s.to_multiset(),
{
    broadcast use vstd::seq_lib::group_to_multiset_ensures;
    broadcast use vstd::multiset::group_multiset_axioms;

    let t = s.update(i, s[j]);
    assert(s.contains(s[i]));
    assert(t.contains(t[j]));
    assert(t.to_multiset() == s.to_multiset().insert(s[j]).remove(s[i]));
    assert(t.update(j, s[i]).to_multiset() == t.to_multiset().insert(s[i]).remove(t[j]));
    assert(t.update(j, s[i]).to_multiset() =~= s.to_multiset());
}

/// Turns a raw draw from `[0, size - 1)` into a swap partner for `idx`:
/// draws at or above `idx` are bumped by one, so the partner ranges over
/// every index of the genome except `idx` itself.
pub fn swap_partner(idx: usize, size: usize, raw: usize) -> (partner: usize)
    requires
        idx < size,
        2 <= size,
        raw < size - 1,
    ensures
        partner < size,
        partner != idx,
        raw >= idx ==> partner == raw + 1,
        raw < idx ==> partner == raw,
{
    if raw >= idx {
        raw + 1
    } else {
        raw
    }
}

/// Swaps pairs of elements of any type, each index firing with independent
/// probability `indpb`; the swap partner of an index is drawn uniformly
/// from the other indices and is never the index itself. A genome with
/// fewer than two elements has no swap partner to offer and is refused
/// unchanged.
pub struct Shuffle {
    pub indpb: Probability,
}

impl<T> Mutator<T> for Shuffle {
    fn mutate(&self, genome: &mut Vec<T>) -> (r: Result<(), Error>)
        ensures
            final(genome)@.to_multiset() == old(genome)@.to_multiset(),
            self.indpb.is_never() ==> final(genome)@ == old(genome)@,
            r == if old(genome)@.len() < 2 {
                Err::<(), Error>(Error::ShufflePoolTooSmall)
            } else {
                Ok::<(), Error>(())
            },
            r matches Err(_) ==> final(genome)@ == old(genome)@,
    {
        let size = genome.len();
        if size < 2 {
            return Err(Error::ShufflePoolTooSmall);
        }
        for idx in 0..size
            invariant
                size == genome@.len(),
                size == old(genome)@.len(),
                2 <= size,
                genome@.to_multiset() == old(genome)@.to_multiset(),
                self.indpb.is_never() ==> genome@ == old(genome)@,
        {
            if coin(&self.indpb) {
                let raw = rand_index(size - 1);
                let partner = swap_partner(idx, size, raw);
                let ghost pre = genome@;
                swap_in_place(genome, idx, partner);
                proof {
                    lemma_swap_multiset(pre, idx as int, partner as int);
                }
            }
        }
        Ok(())
    }
}

/// Relies on the element's `+` through `num_traits::Float`: floating-point
/// addition, which is outside the verifier's arithmetic; nothing is
/// promised of the sum.
#[verifier::external_body]
fn plus<F: num_traits::Float>(a: &F, b: &F) -> F {
    *a + *b
}

/// Relies on `num_traits::Float::is_finite`: whether `x` is neither
/// infinite nor a not-a-number value. Floating-point classification is
/// outside the verifier's arithmetic, so nothing is promised of the
/// answer.
#[verifier::external_body]
fn finite<F: num_traits::Float>(x: &F) -> bool {
    x.is_finite()
}

/// Relies on the partial order on `F` (against `num_traits::Float`'s
/// zero): whether `x` is strictly positive. Floating-point comparison is
/// outside the verifier's arithmetic, so nothing is promised of the
/// answer.
#[verifier::external_body]
fn above_zero<F: num_traits::Float>(x: &F) -> bool {
    *x > F::zero()
}

/// Mean and standard deviation for Gaussian noise, validated once, at
/// construction: a standard deviation that is not both finite and
/// strictly positive is rejected before any mutation could be applied.
pub struct GaussianParams<F> {
    pub mean: F,
    pub stddev: F,
}

impl<F: num_traits::Float> GaussianParams<F> {
    pub fn new(mean: F, stddev: F) -> (r: Result<GaussianParams<F>, Error>)
        ensures
            r matches Ok(g) ==> g.mean == mean && g.stddev == stddev,
            r matches Err(e) ==> e == Error::InvalidDistribution,
    {
        if finite(&stddev) && above_zero(&stddev) {
            Ok(GaussianParams { mean, stddev })
        } else {
            Err(Error::InvalidDistribution)
        }
    }
}

/// Applies a per-element perturbation sampled from a probability
/// distribution: for each element, with independent probability `indpb`,
/// one sample is drawn and added to the element. The distribution object
/// is built once and reused across all elements, never rebuilt per
/// element.
///
/// Since it does not implement the `Mutator` trait (see [`Self::mutate`]),
/// it cannot serve as a `Population`'s bound mutation strategy; a caller
/// batches it by looping over the genomes itself, one independent call
/// per genome.
pub struct ByDist<F, D> {
    dist: D,
    indpb: Probability,
    _marker: core::marker::PhantomData<F>,
}

impl<F, D> ByDist<F, D> where
    F: num_traits::Float,
    D: rand::distributions::Distribution<F>,
 {
    pub closed spec fn indpb_spec(&self) -> Probability {
        self.indpb
    }

    pub closed spec fn dist_spec(&self) -> D {
        self.dist
    }

    /// Creates a new `ByDist` around an arbitrary sampleable distribution.
    pub fn new(dist: D, indpb: Probability) -> (m: ByDist<F, D>)
        ensures
            m.dist_spec() == dist,
            m.indpb_spec() == indpb,
    {
        ByDist { dist, indpb, _marker: core::marker::PhantomData }
    }

    /// The uniform in-place mutation contract, as an inherent method: the
    /// `Mutator` trait cannot be implemented for `ByDist`, since the impl
    /// would carry `num_traits` and `rand` bounds and Verus refuses an
    /// outside trait as a bound on a trait impl.
    pub fn mutate(&self, genome: &mut Vec<F>) -> (r: Result<(), Error>)
        ensures
            final(genome)@.len() == old(genome)@.len(),
            r == Ok::<(), Error>(()),
            self.indpb_spec().is_never() ==> final(genome)@ == old(genome)@,
    {
        let n = genome.len();
        for i in 0..n
            invariant
                n == genome@.len(),
                n == old(genome)@.len(),
                self.indpb_spec().is_never() ==> genome@ == old(genome)@,
        {
            if coin(&self.indpb) {
                let delta = draw(&self.dist);
                let noised = plus(&genome[i], &delta);
                genome.set(i, noised);
            }
        }
        Ok(())
    }
}

} // verus!
