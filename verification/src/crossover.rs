//! One-point crossover: two genomes exchange the suffix of their overlap
//! at a point chosen from the random boundary. Lengths never change and no
//! element is lost or duplicated, only redistributed.

use vstd::prelude::*;

use crate::error::Error;
use crate::random::rand_index;

verus! {

/// What a one-point exchange at `p` does: positions before `p` and
/// positions beyond the overlap keep their elements, and the two genomes
/// exchange the elements of every overlap position at or after `p`.
pub open spec fn one_point_swapped<T>(
    a0: Seq<T>,
    b0: Seq<T>,
    a1: Seq<T>,
    b1: Seq<T>,
    p: int,
) -> bool {
    let m = vstd::math::min(a0.len() as int, b0.len() as int);
    &&& a1.len() == a0.len()
    &&& b1.len() == b0.len()
    &&& forall|i: int| 0 <= i < p ==> a1[i] == a0[i] && b1[i] == b0[i]
    &&& forall|i: int| p <= i < m ==> a1[i] == b0[i] && b1[i] == a0[i]
    &&& forall|i: int| m <= i < a0.len() ==> a1[i] == a0[i]
    &&& forall|i: int| m <= i < b0.len() ==> b1[i] == b0[i]
}

/// Exchanging position `i` between two sequences never changes the
/// combined multiset of their elements.
proof fn lemma_cross_swap_multiset<T>(a: Seq<T>, b: Seq<T>, i: int)
    requires
        0 <= i < a.len(),
        0 <= i < b.len(),
    ensures
        a.update(i, b[i]).to_multiset().add(b.update(i, a[i]).to_multiset()) == a.to_multiset().add(
            b.to_multiset(),
        ),
{
    broadcast use vstd::seq_lib::group_to_multiset_ensures;
    broadcast use vstd::multiset::group_multiset_axioms;

    assert(a.contains(a[i]));
    assert(b.contains(b[i]));
    assert(a.update(i, b[i]).to_multiset() == a.to_multiset().insert(b[i]).remove(a[i]));
    assert(b.update(i, a[i]).to_multiset() == b.to_multiset().insert(a[i]).remove(b[i]));
    assert(a.update(i, b[i]).to_multiset().add(b.update(i, a[i]).to_multiset()) =~= a.to_multiset().add(
        b.to_multiset(),
    ));
}

/// Performs one-point crossover at the given point.
///
/// Swaps the elements of the two genomes at every overlap position at or
/// after `point`; positions before `point`, and trailing positions of the
/// longer genome, are untouched. Deterministic: the caller chooses the
/// point, so the exact exchange is pinned down.
pub fn one_point_at<T>(ind1: &mut Vec<T>, ind2: &mut Vec<T>, point: usize)
    requires
        2 <= vstd::math::min(old(ind1)@.len() as int, old(ind2)@.len() as int),
        1 <= point < vstd::math::min(old(ind1)@.len() as int, old(ind2)@.len() as int),
    ensures
        one_point_swapped(old(ind1)@, old(ind2)@, final(ind1)@, final(ind2)@, point as int),
        final(ind1)@.to_multiset().add(final(ind2)@.to_multiset()) == old(ind1)@.to_multiset().add(
            old(ind2)@.to_multiset(),
        ),
{
    let m = if ind1.len() < ind2.len() {
        ind1.len()
    } else {
        ind2.len()
    };
    for i in point..m
        invariant
            m == vstd::math::min(old(ind1)@.len() as int, old(ind2)@.len() as int),
            point <= i <= m,
            ind1@.len() == old(ind1)@.len(),
            ind2@.len() == old(ind2)@.len(),
            forall|j: int| 0 <= j < point ==> ind1@[j] == old(ind1)@[j] && ind2@[j] == old(ind2)@[j],
            forall|j: int| point <= j < i ==> ind1@[j] == old(ind2)@[j] && ind2@[j] == old(ind1)@[j],
            forall|j: int| i <= j < ind1@.len() ==> ind1@[j] == old(ind1)@[j],
            forall|j: int| i <= j < ind2@.len() ==> ind2@[j] == old(ind2)@[j],
            ind1@.to_multiset().add(ind2@.to_multiset()) == old(ind1)@.to_multiset().add(
                old(ind2)@.to_multiset(),
            ),
    {
        let ghost pa = ind1@;
        let ghost pb = ind2@;
        core::mem::swap(&mut ind1[i], &mut ind2[i]);
        proof {
            lemma_cross_swap_multiset(pa, pb, i as int);
        }
    }
}

/// Performs one-point crossover between the two inputs.
///
/// Modifies in place two genomes, swapping their values at and after a
/// crossover point drawn uniformly from `[1, m)`, where `m` is the length
/// of the shorter genome; point zero is excluded since it would exchange
/// everything and cross nothing over. Genomes whose overlap is shorter
/// than two elements admit no non-trivial point and are refused unchanged.
/// Both genomes always keep their length, and the combined multiset of
/// elements is conserved.
pub fn one_point<T>(ind1: &mut Vec<T>, ind2: &mut Vec<T>) -> (r: Result<(), Error>)
    ensures
        final(ind1)@.len() == old(ind1)@.len(),
        final(ind2)@.len() == old(ind2)@.len(),
        final(ind1)@.to_multiset().add(final(ind2)@.to_multiset()) == old(ind1)@.to_multiset().add(
            old(ind2)@.to_multiset(),
        ),
        vstd::math::min(old(ind1)@.len() as int, old(ind2)@.len() as int) < 2 ==> r == Err::<
            (),
            Error,
        >(Error::TooShortForCrossover) && final(ind1)@ == old(ind1)@ && final(ind2)@ == old(
            ind2,
        )@,
        vstd::math::min(old(ind1)@.len() as int, old(ind2)@.len() as int) >= 2 ==> r == Ok::<
            (),
            Error,
        >(()) && (exists|p: int|
            1 <= p < vstd::math::min(old(ind1)@.len() as int, old(ind2)@.len() as int)
                && one_point_swapped(old(ind1)@, old(ind2)@, final(ind1)@, final(ind2)@, p)),
{
    let m = if ind1.len() < ind2.len() {
        ind1.len()
    } else {
        ind2.len()
    };
    if m < 2 {
        return Err(Error::TooShortForCrossover);
    }
    let point = 1 + rand_index(m - 1);
    one_point_at(ind1, ind2, point);
    proof {
        assert(one_point_swapped(old(ind1)@, old(ind2)@, ind1@, ind2@, point as int));
    }
    Ok(())
}

/// A pairwise in-place crossover strategy over genomes with elements of
/// type `T`. Every strategy leaves both genome lengths unchanged, whether
/// it succeeds or reports a precondition failure.
pub trait Crossover<T> {
    fn crossover(&self, ind1: &mut Vec<T>, ind2: &mut Vec<T>) -> (r: Result<(), Error>)
        ensures
            final(ind1)@.len() == old(ind1)@.len(),
            final(ind2)@.len() == old(ind2)@.len(),
    ;
}

/// The one-point strategy: delegates to [`one_point`].
pub struct OnePoint {}

impl<T> Crossover<T> for OnePoint {
    fn crossover(&self, ind1: &mut Vec<T>, ind2: &mut Vec<T>) -> (r: Result<(), Error>)
        ensures
            final(ind1)@.to_multiset().add(final(ind2)@.to_multiset()) == old(
                ind1,
            )@.to_multiset().add(old(ind2)@.to_multiset()),
            vstd::math::min(old(ind1)@.len() as int, old(ind2)@.len() as int) < 2 ==> r == Err::<
                (),
                Error,
            >(Error::TooShortForCrossover) && final(ind1)@ == old(ind1)@ && final(ind2)@ == old(
                ind2,
            )@,
            vstd::math::min(old(ind1)@.len() as int, old(ind2)@.len() as int) >= 2 ==> r == Ok::<
                (),
                Error,
            >(()),
    {
        one_point(ind1, ind2)
    }
}

} // verus!
