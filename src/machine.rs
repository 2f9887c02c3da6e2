//! The Tsetlin machine: configuration, training epochs over shuffled
//! samples, and prediction by the clause bank's vote.
use vstd::prelude::*;

use crate::clause::{bank_step, ClauseBank};
use crate::matrix::BoolMatrix;
use crate::random::{rng_from_os, rng_from_seed, shuffle_indices};
use crate::ratio::Ratio;

verus! {

broadcast use vstd::seq_lib::to_multiset_contains;

/// The number of states per action of every automaton of a machine.
pub const AUTOMATON_STATES: u32 = 100;

/// Why a machine could not be built or could not do what was asked.
#[derive(Debug, Clone, Copy, PartialEq, Eq, Structural)]
pub enum TmError {
    /// The number of clauses is odd or zero.
    InvalidClauseCount,
    /// The features have another number of columns than the machine, or
    /// another number of rows than there are labels.
    ShapeMismatch,
    /// There are no labels to measure accuracy against.
    EmptyLabels,
    /// The operating system could not supply a seed.
    EntropyUnavailable,
}

/// An accuracy as the fraction `correct / total`.
#[derive(Debug, Clone, Copy, PartialEq, Eq, Structural)]
pub struct Accuracy {
    /// The number of samples predicted right.
    pub correct: usize,
    /// The number of samples.
    pub total: usize,
}

/// A number of clauses that a machine accepts: even and positive.
pub open spec fn valid_clause_count(num_clauses: int) -> bool {
    num_clauses > 0 && num_clauses % 2 == 0
}

/// A binary classifier made of a bank of clauses, trained by feedback drawn
/// from its own random source.
#[derive(Debug)]
pub struct TsetlinMachine {
    clause_bank: ClauseBank,
    num_features: usize,
    num_clauses: usize,
    specificity: Ratio,
    threshold: Ratio,
    rng: rand::rngs::StdRng,
}

/// The number of the first `n` samples whose prediction by `bank` matches
/// the label.
pub open spec fn correct_count(bank: ClauseBank, rows: Seq<Seq<bool>>, labels: Seq<bool>, n: nat) -> int
    decreases n,
{
    if n == 0 {
        0
    } else {
        correct_count(bank, rows, labels, (n - 1) as nat) + if (bank.vote_spec(rows[n - 1]) > 0)
            == labels[n - 1] {
            1int
        } else {
            0int
        }
    }
}

/// Step `k` of a pass over the samples `order[0]`, `order[1]`, ...: a
/// training step on sample `order[k]` leads from `banks[k]` to
/// `banks[k + 1]`.
pub open spec fn step_at(
    banks: Seq<ClauseBank>,
    rows: Seq<Seq<bool>>,
    labels: Seq<bool>,
    order: Seq<usize>,
    threshold: Ratio,
    k: int,
) -> bool {
    bank_step(banks[k], banks[k + 1], rows[order[k] as int], labels[order[k] as int], threshold)
}

/// `banks` is the succession of banks that training on the samples of
/// `order`, in turn, goes through.
pub open spec fn trained_along(
    banks: Seq<ClauseBank>,
    rows: Seq<Seq<bool>>,
    labels: Seq<bool>,
    order: Seq<usize>,
    threshold: Ratio,
) -> bool {
    &&& banks.len() == order.len() + 1
    &&& forall|k: int|
        0 <= k < order.len() ==> #[trigger] step_at(banks, rows, labels, order, threshold, k)
}

/// `order` lists each of the indices `0 .. n` once.
pub open spec fn is_permutation_of_range(order: Seq<usize>, n: int) -> bool {
    &&& order.len() == n
    &&& forall|k: int| 0 <= k < n ==> #[trigger] order[k] < n
    &&& forall|i: usize| i < n ==> #[trigger] order.contains(i)
}

/// One epoch leads from `before` to `after`: for some order of all the
/// samples, training steps on them in that order do.
pub open spec fn epoch_step(
    before: ClauseBank,
    after: ClauseBank,
    rows: Seq<Seq<bool>>,
    labels: Seq<bool>,
    threshold: Ratio,
) -> bool {
    exists|order: Seq<usize>, banks: Seq<ClauseBank>|
        is_permutation_of_range(order, labels.len() as int) && #[trigger] trained_along(
            banks,
            rows,
            labels,
            order,
            threshold,
        ) && banks[0] == before && banks.last() == after
}

/// Epoch `e` of a training run leads from `banks[e]` to `banks[e + 1]`.
pub open spec fn epoch_at(
    banks: Seq<ClauseBank>,
    rows: Seq<Seq<bool>>,
    labels: Seq<bool>,
    threshold: Ratio,
    e: int,
) -> bool {
    epoch_step(banks[e], banks[e + 1], rows, labels, threshold)
}

impl TsetlinMachine {
    pub closed spec fn bank_spec(&self) -> ClauseBank {
        self.clause_bank
    }

    pub closed spec fn num_features_spec(&self) -> int {
        self.num_features as int
    }

    pub closed spec fn num_clauses_spec(&self) -> int {
        self.num_clauses as int
    }

    pub closed spec fn specificity_spec(&self) -> Ratio {
        self.specificity
    }

    pub closed spec fn threshold_spec(&self) -> Ratio {
        self.threshold
    }

    /// The bank matches the machine's shape, the clause count is valid, and
    /// both settings are positive.
    pub open spec fn wf(&self) -> bool {
        &&& self.bank_spec().wf()
        &&& self.bank_spec().num_features_spec() == self.num_features_spec()
        &&& self.bank_spec().num_clauses_spec() == self.num_clauses_spec()
        &&& valid_clause_count(self.num_clauses_spec())
        &&& self.specificity_spec().wf()
        &&& self.threshold_spec().wf()
    }

    /// The prediction on one sample: a strictly positive vote. A tie
    /// predicts `false`.
    pub open spec fn predicts(&self, input: Seq<bool>) -> bool {
        self.bank_spec().vote_spec(input) > 0
    }

    /// A machine that is fresh: every automaton of every clause excludes
    /// its literal, at the deepest state.
    pub open spec fn is_fresh(&self) -> bool {
        forall|j: int|
            0 <= j < self.num_clauses_spec() ==> (#[trigger] self.bank_spec().clauses_spec()[j]).is_fresh(
                AUTOMATON_STATES as int,
            ) && self.bank_spec().clauses_spec()[j].all_excluded()
    }

    /// The configuration that a call of `new` with these arguments sets.
    pub open spec fn configured(
        &self,
        num_features: int,
        num_clauses: int,
        specificity: Ratio,
        threshold: Ratio,
    ) -> bool {
        &&& self.wf()
        &&& self.num_features_spec() == num_features
        &&& self.num_clauses_spec() == num_clauses
        &&& self.specificity_spec() == specificity
        &&& self.threshold_spec() == threshold
        &&& self.is_fresh()
    }

    /// A machine of `num_clauses` fresh clauses over `num_features`
    /// features, with the given random source.
    fn build(
        num_features: usize,
        num_clauses: usize,
        specificity: Ratio,
        threshold: Ratio,
        rng: rand::rngs::StdRng,
    ) -> (r: Self)
        requires
            valid_clause_count(num_clauses as int),
            num_clauses <= i32::MAX,
            specificity.wf(),
            threshold.wf(),
        ensures
            r.configured(num_features as int, num_clauses as int, specificity, threshold),
    {
        TsetlinMachine {
            clause_bank: ClauseBank::new(num_features, num_clauses, AUTOMATON_STATES),
            num_features,
            num_clauses,
            specificity,
            threshold,
            rng,
        }
    }

    /// A fresh machine whose random source is seeded by the operating
    /// system. Fails with `InvalidClauseCount` when `num_clauses` is odd or
    /// zero, checked first; otherwise with `EntropyUnavailable` when the
    /// operating system gives no seed.
    pub fn new(num_features: usize, num_clauses: usize, specificity: Ratio, threshold: Ratio) -> (r:
        Result<Self, TmError>)
        requires
            num_clauses <= i32::MAX,
            specificity.wf(),
            threshold.wf(),
        ensures
            !valid_clause_count(num_clauses as int) ==> r == Err::<Self, TmError>(
                TmError::InvalidClauseCount,
            ),
            valid_clause_count(num_clauses as int) ==> (r matches Err(e) ==> e
                == TmError::EntropyUnavailable),
            r matches Ok(m) ==> m.configured(num_features as int, num_clauses as int, specificity, threshold),
    {
        if num_clauses == 0 || num_clauses % 2 != 0 {
            return Err(TmError::InvalidClauseCount);
        }
        match rng_from_os() {
            Some(rng) => Ok(Self::build(num_features, num_clauses, specificity, threshold, rng)),
            None => Err(TmError::EntropyUnavailable),
        }
    }

    /// A fresh machine whose random source is seeded by `seed`, so that
    /// training with it can be repeated exactly. Fails when `num_clauses` is
    /// odd or zero.
    pub fn with_seed(
        num_features: usize,
        num_clauses: usize,
        specificity: Ratio,
        threshold: Ratio,
        seed: u64,
    ) -> (r: Result<Self, TmError>)
        requires
            num_clauses <= i32::MAX,
            specificity.wf(),
            threshold.wf(),
        ensures
            r is Err <==> !valid_clause_count(num_clauses as int),
            r matches Err(e) ==> e == TmError::InvalidClauseCount,
            r matches Ok(m) ==> m.configured(num_features as int, num_clauses as int, specificity, threshold),
    {
        if num_clauses == 0 || num_clauses % 2 != 0 {
            return Err(TmError::InvalidClauseCount);
        }
        Ok(Self::build(num_features, num_clauses, specificity, threshold, rng_from_seed(seed)))
    }

    /// `new` with a specificity of 2 and a threshold of 1, failing as `new`
    /// does.
    pub fn with_defaults(num_features: usize, num_clauses: usize) -> (r: Result<Self, TmError>)
        requires
            num_clauses <= i32::MAX,
        ensures
            !valid_clause_count(num_clauses as int) ==> r == Err::<Self, TmError>(
                TmError::InvalidClauseCount,
            ),
            valid_clause_count(num_clauses as int) ==> (r matches Err(e) ==> e
                == TmError::EntropyUnavailable),
            r matches Ok(m) ==> m.wf() && m.num_features_spec() == num_features && m.num_clauses_spec()
                == num_clauses && m.specificity_spec().numerator_spec() == 2
                && m.specificity_spec().denominator_spec() == 1
                && m.threshold_spec().numerator_spec() == 1
                && m.threshold_spec().denominator_spec() == 1 && m.is_fresh(),
    {
        let specificity = Ratio::whole(2).unwrap();
        let threshold = Ratio::whole(1).unwrap();
        Self::new(num_features, num_clauses, specificity, threshold)
    }

    /// The number of features.
    pub fn num_features(&self) -> (r: usize)
        ensures
            r as int == self.num_features_spec(),
    {
        self.num_features
    }

    /// The number of clauses.
    pub fn num_clauses(&self) -> (r: usize)
        ensures
            r as int == self.num_clauses_spec(),
    {
        self.num_clauses
    }

    /// The specificity.
    pub fn specificity(&self) -> (r: Ratio)
        ensures
            r == self.specificity_spec(),
    {
        self.specificity
    }

    /// The threshold.
    pub fn threshold(&self) -> (r: Ratio)
        ensures
            r == self.threshold_spec(),
    {
        self.threshold
    }

    /// The clause bank.
    pub fn clause_bank(&self) -> (r: &ClauseBank)
        ensures
            *r == self.bank_spec(),
    {
        &self.clause_bank
    }

    /// One pass over the samples in the order given by `order`: a training
    /// step of the clause bank on each sample in turn. The machine's shape
    /// and settings stay; the bank goes through one `bank_step` per entry
    /// of `order`.
    pub fn train_epoch(&mut self, features: &BoolMatrix, labels: &Vec<bool>, order: &Vec<usize>)
        requires
            old(self).wf(),
            features.wf(),
            features.ncols_spec() == old(self).num_features_spec(),
            features.nrows_spec() == labels@.len(),
            forall|k: int| 0 <= k < order@.len() ==> #[trigger] order@[k] < labels@.len(),
        ensures
            final(self).wf(),
            final(self).num_features_spec() == old(self).num_features_spec(),
            final(self).num_clauses_spec() == old(self).num_clauses_spec(),
            final(self).specificity_spec() == old(self).specificity_spec(),
            final(self).threshold_spec() == old(self).threshold_spec(),
            exists|banks: Seq<ClauseBank>|
                #[trigger] trained_along(
                    banks,
                    features.rows_spec(),
                    labels@,
                    order@,
                    old(self).threshold_spec(),
                ) && banks[0] == old(self).bank_spec() && banks.last() == final(self).bank_spec(),
    {
        let threshold = self.threshold;
        let specificity = self.specificity;
        let ghost rows = features.rows_spec();
        let ghost mut banks: Seq<ClauseBank> = seq![self.clause_bank];
        let mut p: usize = 0;
        while p < order.len()
            invariant
                self.wf(),
                features.wf(),
                rows == features.rows_spec(),
                features.ncols_spec() == self.num_features_spec(),
                features.nrows_spec() == labels@.len(),
                forall|k: int| 0 <= k < order@.len() ==> #[trigger] order@[k] < labels@.len(),
                threshold == self.threshold_spec(),
                specificity == self.specificity_spec(),
                self.num_features_spec() == old(self).num_features_spec(),
                self.num_clauses_spec() == old(self).num_clauses_spec(),
                self.specificity_spec() == old(self).specificity_spec(),
                self.threshold_spec() == old(self).threshold_spec(),
                p <= order@.len(),
                banks.len() == p + 1,
                banks[0] == old(self).bank_spec(),
                banks.last() == self.bank_spec(),
                forall|k: int| 0 <= k < p ==> #[trigger] step_at(banks, rows, labels@, order@, threshold, k),
            decreases order@.len() - p,
        {
            let idx = order[p];
            let row = features.row(idx);
            self.clause_bank.update(row.as_slice(), labels[idx], &threshold, &specificity, &mut self.rng);
            let ghost prev = banks;
            proof {
                banks = banks.push(self.clause_bank);
                assert forall|k: int| 0 <= k < p + 1 implies #[trigger] step_at(
                    banks,
                    rows,
                    labels@,
                    order@,
                    threshold,
                    k,
                ) by {
                    assert(banks[k] == if k < p + 1 { prev[k] } else { self.clause_bank });
                    if k < p {
                        assert(step_at(prev, rows, labels@, order@, threshold, k));
                        assert(banks[k + 1] == prev[k + 1]);
                    } else {
                        assert(banks[k + 1] == self.clause_bank);
                    }
                }
            }
            p = p + 1;
        }
        assert(trained_along(banks, rows, labels@, order@, threshold));
    }

    /// Trains for `epochs` passes over the samples, each pass in a fresh
    /// random order of all of them; training continues from the current
    /// state. Fails, and changes nothing, when `features` has another number
    /// of rows than `labels` or another number of columns than the machine.
    /// On success the bank has gone through `epochs` epochs, each an
    /// `epoch_step`.
    pub fn fit(&mut self, features: &BoolMatrix, labels: &Vec<bool>, epochs: usize) -> (r: Result<(), TmError>)
        requires
            old(self).wf(),
            features.wf(),
        ensures
            r is Err <==> (features.nrows_spec() != labels@.len() || features.ncols_spec()
                != old(self).num_features_spec()),
            r matches Err(e) ==> e == TmError::ShapeMismatch && *final(self) == *old(self),
            final(self).wf(),
            final(self).num_features_spec() == old(self).num_features_spec(),
            final(self).num_clauses_spec() == old(self).num_clauses_spec(),
            final(self).specificity_spec() == old(self).specificity_spec(),
            final(self).threshold_spec() == old(self).threshold_spec(),
            r is Ok ==> exists|banks: Seq<ClauseBank>|
                banks.len() == epochs + 1 && banks[0] == old(self).bank_spec() && banks.last()
                    == final(self).bank_spec() && forall|e: int|
                    0 <= e < epochs ==> #[trigger] epoch_at(
                        banks,
                        features.rows_spec(),
                        labels@,
                        old(self).threshold_spec(),
                        e,
                    ),
    {
        if features.nrows() != labels.len() || features.ncols() != self.num_features {
            return Err(TmError::ShapeMismatch);
        }
        let n = labels.len();
        let mut indices: Vec<usize> = Vec::new();
        let mut k: usize = 0;
        while k < n
            invariant
                k <= n,
                indices@.len() == k,
                forall|i: int| 0 <= i < k ==> #[trigger] indices@[i] == i,
            decreases n - k,
        {
            indices.push(k);
            k = k + 1;
        }
        assert forall|i: usize| i < n implies #[trigger] indices@.contains(i) by {
            assert(indices@[i as int] == i);
        }
        let ghost rows = features.rows_spec();
        let ghost threshold = self.threshold;
        let ghost mut trace: Seq<ClauseBank> = seq![self.clause_bank];
        let mut e: usize = 0;
        while e < epochs
            invariant
                self.wf(),
                features.wf(),
                rows == features.rows_spec(),
                threshold == old(self).threshold_spec(),
                features.ncols_spec() == self.num_features_spec(),
                features.nrows_spec() == labels@.len(),
                n == labels@.len(),
                is_permutation_of_range(indices@, n as int),
                self.num_features_spec() == old(self).num_features_spec(),
                self.num_clauses_spec() == old(self).num_clauses_spec(),
                self.specificity_spec() == old(self).specificity_spec(),
                self.threshold_spec() == old(self).threshold_spec(),
                e <= epochs,
                trace.len() == e + 1,
                trace[0] == old(self).bank_spec(),
                trace.last() == self.bank_spec(),
                forall|f: int| 0 <= f < e ==> #[trigger] epoch_at(trace, rows, labels@, threshold, f),
            decreases epochs - e,
        {
            let ghost before = indices@;
            shuffle_indices(&mut self.rng, &mut indices);
            assert forall|i: int| 0 <= i < indices@.len() implies #[trigger] indices@[i] < n by {
                let x = indices@[i];
                assert(indices@.contains(x));
                assert(indices@.to_multiset().count(x) > 0);
                assert(before.contains(x));
            }
            assert forall|i: usize| i < n implies #[trigger] indices@.contains(i) by {
                assert(before.contains(i));
                assert(before.to_multiset().count(i) > 0);
                assert(indices@.to_multiset().count(i) > 0);
            }
            let ghost start = self.clause_bank;
            self.train_epoch(features, labels, &indices);
            proof {
                let banks = choose|banks: Seq<ClauseBank>|
                    #[trigger] trained_along(banks, rows, labels@, indices@, threshold) && banks[0]
                        == start && banks.last() == self.clause_bank;
                assert(trained_along(banks, rows, labels@, indices@, threshold));
                assert(epoch_step(start, self.clause_bank, rows, labels@, threshold));
                let prev = trace;
                trace = trace.push(self.clause_bank);
                assert forall|f: int| 0 <= f < e + 1 implies #[trigger] epoch_at(
                    trace,
                    rows,
                    labels@,
                    threshold,
                    f,
                ) by {
                    if f < e {
                        assert(epoch_at(prev, rows, labels@, threshold, f));
                        assert(trace[f] == prev[f]);
                        assert(trace[f + 1] == prev[f + 1]);
                    } else {
                        assert(trace[f] == start);
                        assert(trace[f + 1] == self.clause_bank);
                    }
                }
            }
            e = e + 1;
        }
        assert(trace.len() == epochs + 1);
        Ok(())
    }

    /// The prediction for each row: `true` exactly when the vote is
    /// positive. Fails when `features` has another number of columns than
    /// the machine.
    pub fn predict(&self, features: &BoolMatrix) -> (r: Result<Vec<bool>, TmError>)
        requires
            self.wf(),
            features.wf(),
        ensures
            r is Err <==> features.ncols_spec() != self.num_features_spec(),
            r matches Err(e) ==> e == TmError::ShapeMismatch,
            r matches Ok(p) ==> p@.len() == features.nrows_spec() && forall|i: int|
                0 <= i < p@.len() ==> #[trigger] p@[i] == self.predicts(features.rows_spec()[i]),
    {
        if features.ncols() != self.num_features {
            return Err(TmError::ShapeMismatch);
        }
        let mut predictions: Vec<bool> = Vec::new();
        let mut i: usize = 0;
        while i < features.nrows()
            invariant
                self.wf(),
                features.wf(),
                features.ncols_spec() == self.num_features_spec(),
                i <= features.nrows_spec(),
                predictions@.len() == i,
                forall|k: int|
                    0 <= k < i ==> #[trigger] predictions@[k] == self.predicts(features.rows_spec()[k]),
            decreases features.nrows_spec() - i,
        {
            let row = features.row(i);
            let vote = self.clause_bank.vote(row.as_slice());
            predictions.push(vote > 0);
            i = i + 1;
        }
        Ok(predictions)
    }

    /// The prediction for one sample. Fails when `features` has another
    /// length than the number of features.
    pub fn predict_single(&self, features: &[bool]) -> (r: Result<bool, TmError>)
        requires
            self.wf(),
        ensures
            r is Err <==> features@.len() != self.num_features_spec(),
            r matches Err(e) ==> e == TmError::ShapeMismatch,
            r matches Ok(b) ==> b == self.predicts(features@),
    {
        if features.len() != self.num_features {
            return Err(TmError::ShapeMismatch);
        }
        let vote = self.clause_bank.vote(features);
        Ok(vote > 0)
    }

    /// The share of rows whose prediction matches the label. Fails with
    /// `ShapeMismatch` when the shapes disagree, and with `EmptyLabels` when
    /// there are no samples.
    pub fn evaluate(&self, features: &BoolMatrix, labels: &Vec<bool>) -> (r: Result<Accuracy, TmError>)
        requires
            self.wf(),
            features.wf(),
        ensures
            r matches Err(e) ==> (e == TmError::ShapeMismatch <==> (features.ncols_spec()
                != self.num_features_spec() || features.nrows_spec() != labels@.len())),
            r matches Err(e) ==> (e == TmError::EmptyLabels <==> (features.ncols_spec()
                == self.num_features_spec() && features.nrows_spec() == labels@.len() && labels@.len()
                == 0)),
            r is Ok <==> (features.ncols_spec() == self.num_features_spec() && features.nrows_spec()
                == labels@.len() && labels@.len() > 0),
            r matches Ok(a) ==> a.total == labels@.len() && a.correct == correct_count(
                self.bank_spec(),
                features.rows_spec(),
                labels@,
                labels@.len() as nat,
            ) && a.correct <= a.total,
    {
        if features.ncols() != self.num_features || features.nrows() != labels.len() {
            return Err(TmError::ShapeMismatch);
        }
        if labels.len() == 0 {
            return Err(TmError::EmptyLabels);
        }
        let predictions = self.predict(features);
        let predictions = match predictions {
            Ok(p) => p,
            Err(e) => {
                return Err(e);
            },
        };
        let mut correct: usize = 0;
        let mut i: usize = 0;
        while i < labels.len()
            invariant
                predictions@.len() == labels@.len(),
                features.nrows_spec() == labels@.len(),
                forall|k: int|
                    0 <= k < predictions@.len() ==> #[trigger] predictions@[k] == self.predicts(
                        features.rows_spec()[k],
                    ),
                i <= labels@.len(),
                correct as int == correct_count(self.bank_spec(), features.rows_spec(), labels@, i as nat),
                correct <= i,
            decreases labels@.len() - i,
        {
            if predictions[i] == labels[i] {
                correct = correct + 1;
            }
            i = i + 1;
        }
        Ok(Accuracy { correct, total: labels.len() })
    }
}

/// A fresh machine votes zero on every well-sized input, so it predicts
/// `false` there.
pub proof fn lemma_fresh_machine_predicts_false(m: TsetlinMachine, input: Seq<bool>)
    requires
        m.wf(),
        m.is_fresh(),
        input.len() == m.num_features_spec(),
    ensures
        m.bank_spec().vote_spec(input) == 0,
        !m.predicts(input),
{
    crate::clause::lemma_excluded_bank_votes_zero(m.bank_spec(), input);
}

} // verus!
