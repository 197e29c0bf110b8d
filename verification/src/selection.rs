//! Fitness-based selection: a select-one capability, a select-many
//! capability derived from it by independent repetition, tournament
//! selection, and a deterministic select-best strategy.

use vstd::prelude::*;

use core::cmp::Ordering;

use vstd::std_specs::cmp::PartialOrdSpec;

use crate::error::Error;
use crate::random::rand_index;

verus! {

/// The winner of a left-to-right tournament among `cands` (indices into
/// `fits`): the running best is replaced only by a strictly greater
/// fitness, so among equally-maximal candidates the earliest wins; a
/// comparison that yields no ordering poisons the whole tournament
/// (`None`), and is never treated as a tie.
pub open spec fn tournament_fold<F: PartialOrd>(fits: Seq<F>, cands: Seq<usize>) -> Option<usize>
    decreases cands.len(),
{
    if cands.len() == 0 {
        None
    } else if cands.len() == 1 {
        Some(cands[0])
    } else {
        match tournament_fold(fits, cands.drop_last()) {
            None => None,
            Some(b) => {
                let c = cands.last();
                if c == b {
                    Some(b)
                } else {
                    match fits[c as int].partial_cmp_spec(&fits[b as int]) {
                        None => None,
                        Some(Ordering::Greater) => Some(c),
                        Some(_) => Some(b),
                    }
                }
            },
        }
    }
}

/// Once a tournament prefix is poisoned by an unordered comparison, every
/// longer prefix is poisoned too.
proof fn lemma_fold_none_persists<F: PartialOrd>(fits: Seq<F>, cands: Seq<usize>, k: int)
    requires
        1 <= k <= cands.len(),
        tournament_fold(fits, cands.subrange(0, k)) is None,
    ensures
        tournament_fold(fits, cands) is None,
    decreases cands.len() - k,
{
    if k == cands.len() {
        assert(cands.subrange(0, k) =~= cands);
    } else {
        assert(cands.subrange(0, k + 1).drop_last() =~= cands.subrange(0, k));
        lemma_fold_none_persists(fits, cands, k + 1);
    }
}

/// Runs a tournament among the given candidate indices and returns the
/// index holding the greatest fitness, the earliest one under ties.
///
/// This is the deterministic half of tournament selection: the caller
/// supplies the candidates (drawn at random by [`TournamentSelection`]),
/// so the outcome is pinned down by the fold over the fitness ordering.
/// A candidate list that names a single index never needs a comparison
/// and always yields that index.
pub fn tournament_winner<F: PartialOrd>(fitnesses: &Vec<F>, candidates: &Vec<usize>) -> (r: Result<
    usize,
    Error,
>)
    requires
        candidates@.len() >= 1,
        forall|k: int| 0 <= k < candidates@.len() ==> (#[trigger] candidates@[k]) < fitnesses@.len(),
    ensures
        r matches Ok(w) ==> candidates@.contains(w) && w < fitnesses@.len(),
        r matches Err(e) ==> e == Error::UnorderedFitness,
        (forall|k: int| 0 <= k < candidates@.len() ==> (#[trigger] candidates@[k]) == candidates@[0]) ==> r
            == Ok::<usize, Error>(candidates@[0]),
        F::obeys_partial_cmp_spec() ==> r == match tournament_fold(fitnesses@, candidates@) {
            Some(w) => Ok::<usize, Error>(w),
            None => Err::<usize, Error>(Error::UnorderedFitness),
        },
{
    let mut best: usize = candidates[0];
    let n = candidates.len();
    for k in 1..n
        invariant
            1 <= k <= n,
            n == candidates@.len(),
            forall|j: int| 0 <= j < n ==> (#[trigger] candidates@[j]) < fitnesses@.len(),
            candidates@.contains(best),
            best < fitnesses@.len(),
            (forall|j: int| 0 <= j < k ==> (#[trigger] candidates@[j]) == candidates@[0]) ==> best
                == candidates@[0],
            F::obeys_partial_cmp_spec() ==> tournament_fold(
                fitnesses@,
                candidates@.subrange(0, k as int),
            ) == Some(best),
    {
        let c = candidates[k];
        proof {
            assert(candidates@.subrange(0, k + 1 as int).drop_last() =~= candidates@.subrange(
                0,
                k as int,
            ));
        }
        if c != best {
            match fitnesses[c].partial_cmp(&fitnesses[best]) {
                None => {
                    proof {
                        if F::obeys_partial_cmp_spec() {
                            lemma_fold_none_persists(fitnesses@, candidates@, k + 1 as int);
                        }
                    }
                    return Err(Error::UnorderedFitness);
                },
                Some(Ordering::Greater) => {
                    best = c;
                },
                Some(_) => {},
            }
        }
    }
    proof {
        assert(candidates@.subrange(0, n as int) =~= candidates@);
    }
    Ok(best)
}

/// Under the partial-order laws, no value compares strictly greater
/// than itself.
proof fn lemma_self_not_greater<F: PartialOrd>(v: F)
    requires
        vstd::laws_cmp::obeys_partial_cmp_spec_properties::<F>(),
    ensures
        v.partial_cmp_spec(&v) != Some(Ordering::Greater),
{
    reveal(vstd::laws_cmp::obeys_partial_cmp_spec_properties);
    if v.partial_cmp_spec(&v) == Some(Ordering::Greater) {
        assert(v.partial_cmp_spec(&v) == Some(Ordering::Less));
    }
}

/// The winner of a tournament holds a maximal fitness: under an ordering
/// that obeys the partial-order laws (reversal of strict comparisons and
/// transitivity), no candidate's fitness compares strictly greater than
/// the winner's.
pub proof fn lemma_tournament_fold_max<F: PartialOrd>(fits: Seq<F>, cands: Seq<usize>, w: usize)
    requires
        vstd::laws_cmp::obeys_partial_cmp_spec_properties::<F>(),
        forall|k: int| 0 <= k < cands.len() ==> (#[trigger] cands[k]) < fits.len(),
        tournament_fold(fits, cands) == Some(w),
    ensures
        cands.contains(w),
        forall|k: int|
            0 <= k < cands.len() ==> fits[(#[trigger] cands[k]) as int].partial_cmp_spec(
                &fits[w as int],
            ) != Some(Ordering::Greater),
    decreases cands.len(),
{
    reveal(vstd::laws_cmp::obeys_partial_cmp_spec_properties);
    let n = cands.len() as int;
    if cands.len() == 1 {
        assert(cands[0] == w);
        assert(cands.contains(w));
        assert forall|k: int|
            0 <= k < n implies fits[(cands[k]) as int].partial_cmp_spec(&fits[w as int]) != Some(
            Ordering::Greater,
        ) by {
            lemma_self_not_greater(fits[w as int]);
        }
    } else {
        let prefix = cands.drop_last();
        let b = tournament_fold(fits, prefix)->Some_0;
        lemma_tournament_fold_max(fits, prefix, b);
        let j0 = choose|j: int| 0 <= j < prefix.len() && prefix[j] == b;
        assert(cands[j0] == b);
        assert(cands.contains(b));
        let c = cands.last();
        if c == b || fits[c as int].partial_cmp_spec(&fits[b as int]) != Some(Ordering::Greater) {
            assert(w == b);
            assert(cands.contains(w));
            assert forall|k: int|
                0 <= k < n implies fits[(cands[k]) as int].partial_cmp_spec(&fits[w as int])
                != Some(Ordering::Greater) by {
                if k < n - 1 {
                    assert(prefix[k] == cands[k]);
                } else {
                    assert(cands[k] == c);
                    if c == b {
                        lemma_self_not_greater(fits[w as int]);
                    }
                }
            }
        } else {
            assert(fits[c as int].partial_cmp_spec(&fits[b as int]) == Some(Ordering::Greater));
            assert(w == c);
            assert(cands.contains(w));
            assert forall|k: int|
                0 <= k < n implies fits[(cands[k]) as int].partial_cmp_spec(&fits[w as int])
                != Some(Ordering::Greater) by {
                if k < n - 1 {
                    assert(prefix[k] == cands[k]);
                    assert(fits[(cands[k]) as int].partial_cmp_spec(&fits[b as int]) != Some(
                        Ordering::Greater,
                    ));
                    if fits[(cands[k]) as int].partial_cmp_spec(&fits[c as int]) == Some(
                        Ordering::Greater,
                    ) {
                        assert(fits[(cands[k]) as int].partial_cmp_spec(&fits[b as int]) == Some(
                            Ordering::Greater,
                        ));
                    }
                } else {
                    lemma_self_not_greater(fits[w as int]);
                }
            }
        }
    }
}

/// A tournament that names a winner names one of its candidates.
proof fn lemma_fold_in_candidates<F: PartialOrd>(fits: Seq<F>, cands: Seq<usize>, w: usize)
    requires
        tournament_fold(fits, cands) == Some(w),
    ensures
        cands.contains(w),
    decreases cands.len(),
{
    if cands.len() == 1 {
        assert(cands[0] == w);
    } else {
        let prefix = cands.drop_last();
        let b = tournament_fold(fits, prefix)->Some_0;
        lemma_fold_in_candidates(fits, prefix, b);
        if w == b {
            let j0 = choose|j: int| 0 <= j < prefix.len() && prefix[j] == b;
            assert(cands[j0] == w);
        } else {
            assert(cands.last() == w);
        }
    }
}

/// When every pair of fitness values compares to an ordering, no
/// tournament can be poisoned: the fold always names a winner.
proof fn lemma_fold_total<F: PartialOrd>(fits: Seq<F>, cands: Seq<usize>)
    requires
        cands.len() >= 1,
        forall|k: int| 0 <= k < cands.len() ==> (#[trigger] cands[k]) < fits.len(),
        forall|i: int, j: int|
            0 <= i < fits.len() && 0 <= j < fits.len() ==> (#[trigger] fits[i].partial_cmp_spec(
                &fits[j],
            )) is Some,
    ensures
        tournament_fold(fits, cands) is Some,
    decreases cands.len(),
{
    if cands.len() > 1 {
        let prefix = cands.drop_last();
        lemma_fold_total(fits, prefix);
        let b = tournament_fold(fits, prefix)->Some_0;
        lemma_fold_in_candidates(fits, prefix, b);
        let j0 = choose|j: int| 0 <= j < prefix.len() && prefix[j] == b;
        assert(cands[j0] == b);
        assert(b < fits.len());
    }
}

/// A strategy that turns a fitness vector into one chosen index.
///
/// An empty fitness vector is refused with the empty-pool condition, and
/// a returned index always lies within the vector.
pub trait SelectOne<F> {
    fn select(&self, fitnesses: &Vec<F>) -> (r: Result<usize, Error>)
        ensures
            r matches Ok(i) ==> i < fitnesses@.len(),
            fitnesses@.len() == 0 ==> r == Err::<usize, Error>(Error::EmptySelectionPool),
    ;
}

/// A strategy that turns a fitness vector into `n` chosen indices, with
/// repetition permitted.
pub trait SelectMany<F> {
    fn select_n(&self, fitnesses: &Vec<F>, n: usize) -> (r: Result<Vec<usize>, Error>)
        ensures
            r matches Ok(v) ==> v@.len() == n && (forall|k: int|
                0 <= k < n ==> (#[trigger] v@[k]) < fitnesses@.len()),
            n == 0 ==> r matches Ok(_),
            n > 0 && fitnesses@.len() == 0 ==> r == Err::<Vec<usize>, Error>(
                Error::EmptySelectionPool,
            ),
    ;
}

/// Every select-one strategy selects many by drawing independently `n`
/// times: each draw is a fresh, identically distributed call, not a
/// partition of the candidates.
impl<F, S: SelectOne<F>> SelectMany<F> for S {
    fn select_n(&self, fitnesses: &Vec<F>, n: usize) -> (r: Result<Vec<usize>, Error>) {
        let mut chosen: Vec<usize> = Vec::new();
        for k in 0..n
            invariant
                chosen@.len() == k,
                k > 0 ==> fitnesses@.len() > 0,
                forall|j: int| 0 <= j < k ==> (#[trigger] chosen@[j]) < fitnesses@.len(),
        {
            match self.select(fitnesses) {
                Ok(i) => chosen.push(i),
                Err(e) => {
                    return Err(e);
                },
            }
        }
        Ok(chosen)
    }
}

/// Tournament selection: draws `tournament_size` indices uniformly, with
/// replacement, and returns the drawn index with the greatest fitness.
/// The tournament size is fixed and validated at construction.
pub struct TournamentSelection {
    tournament_size: usize,
}

impl TournamentSelection {
    #[verifier::type_invariant]
    pub closed spec fn wf(&self) -> bool {
        1 <= self.tournament_size
    }

    pub closed spec fn size_spec(&self) -> usize {
        self.tournament_size
    }

    /// Builds the strategy; a tournament with no participants could never
    /// name a winner and is rejected.
    pub fn new(tournament_size: usize) -> (r: Result<TournamentSelection, Error>)
        ensures
            r matches Ok(t) ==> t.size_spec() == tournament_size && tournament_size >= 1,
            r matches Err(e) ==> e == Error::InvalidTournamentSize && tournament_size == 0,
    {
        if tournament_size == 0 {
            Err(Error::InvalidTournamentSize)
        } else {
            Ok(TournamentSelection { tournament_size })
        }
    }
}

impl<F: PartialOrd> SelectOne<F> for TournamentSelection {
    fn select(&self, fitnesses: &Vec<F>) -> (r: Result<usize, Error>)
        ensures
            fitnesses@.len() == 1 ==> r == Ok::<usize, Error>(0),
            r matches Err(e) ==> e == Error::EmptySelectionPool || e == Error::UnorderedFitness,
            fitnesses@.len() > 0 ==> (r matches Err(e) ==> e == Error::UnorderedFitness),
            self.size_spec() == 1 && fitnesses@.len() > 0 ==> r matches Ok(_),
            F::obeys_partial_cmp_spec() && fitnesses@.len() > 0 && (forall|i: int, j: int|
                0 <= i < fitnesses@.len() && 0 <= j < fitnesses@.len() ==> (
                #[trigger] fitnesses@[i].partial_cmp_spec(&fitnesses@[j])) is Some) ==> r matches Ok(
                _,
            ),
    {
        let len = fitnesses.len();
        if len == 0 {
            return Err(Error::EmptySelectionPool);
        }
        proof {
            use_type_invariant(self);
        }
        let mut candidates: Vec<usize> = Vec::new();
        let ts = self.tournament_size;
        for k in 0..ts
            invariant
                candidates@.len() == k,
                len == fitnesses@.len(),
                1 <= len,
                forall|j: int| 0 <= j < k ==> (#[trigger] candidates@[j]) < fitnesses@.len(),
                len == 1 ==> forall|j: int| 0 <= j < k ==> (#[trigger] candidates@[j]) == 0,
                ts == self.size_spec(),
        {
            let c = rand_index(len);
            candidates.push(c);
        }
        let r = tournament_winner(fitnesses, &candidates);
        proof {
            if F::obeys_partial_cmp_spec() && (forall|i: int, j: int|
                0 <= i < fitnesses@.len() && 0 <= j < fitnesses@.len() ==> (
                #[trigger] fitnesses@[i].partial_cmp_spec(&fitnesses@[j])) is Some) {
                lemma_fold_total(fitnesses@, candidates@);
            }
        }
        r
    }
}

/// Deterministic select-best: the index with the greatest fitness over
/// the whole vector, the earliest one under ties; no randomness at all.
pub struct SelBest {}

impl<F: PartialOrd> SelectOne<F> for SelBest {
    fn select(&self, fitnesses: &Vec<F>) -> (r: Result<usize, Error>)
        ensures
            fitnesses@.len() == 1 ==> r == Ok::<usize, Error>(0),
            r matches Err(e) ==> e == Error::EmptySelectionPool || e == Error::UnorderedFitness,
            fitnesses@.len() > 0 ==> (r matches Err(e) ==> e == Error::UnorderedFitness),
            F::obeys_partial_cmp_spec() && fitnesses@.len() > 0 ==> r == match tournament_fold(
                fitnesses@,
                Seq::new(fitnesses@.len(), |i: int| i as usize),
            ) {
                Some(w) => Ok::<usize, Error>(w),
                None => Err::<usize, Error>(Error::UnorderedFitness),
            },
    {
        let len = fitnesses.len();
        if len == 0 {
            return Err(Error::EmptySelectionPool);
        }
        let mut everyone: Vec<usize> = Vec::new();
        for k in 0..len
            invariant
                everyone@.len() == k,
                k <= len,
                forall|j: int| 0 <= j < k ==> (#[trigger] everyone@[j]) == j,
        {
            everyone.push(k);
        }
        proof {
            assert(everyone@ =~= Seq::new(fitnesses@.len(), |i: int| i as usize));
        }
        tournament_winner(fitnesses, &everyone)
    }
}

} // verus!
