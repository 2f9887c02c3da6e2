//! Clauses (conjunctions of literals, each governed by an automaton) and the
//! bank of clauses that votes on an input and learns from feedback.
use vstd::prelude::*;

use crate::automaton::{penalize_state, reward_state, Action, TsetlinAutomaton};
use crate::ratio::Ratio;

verus! {

/// A literal under an automaton holds on an input: it is left out, or it is
/// included and its value (`x` for a positive literal, `!x` for a negative
/// one) is true.
pub open spec fn literal_holds(a: TsetlinAutomaton, value: bool) -> bool {
    a.state_spec() > 0 ==> value
}

/// The conjunction of every included literal, over the first `input.len()`
/// features.
pub open spec fn conjunction_holds(
    positive: Seq<TsetlinAutomaton>,
    negative: Seq<TsetlinAutomaton>,
    input: Seq<bool>,
) -> bool {
    forall|i: int|
        0 <= i < input.len() ==> literal_holds(#[trigger] positive[i], input[i]) && literal_holds(
            negative[i],
            !input[i],
        )
}

/// What one feedback step may do to the automaton of one literal, whose
/// value on the input is `value`. Under a positive target, a firing clause
/// rewards its included literals that hold and penalizes those that do not;
/// a silent clause may penalize (toward inclusion) an excluded literal that
/// holds. Under a negative target, a firing clause may penalize its included
/// literals. Everything else is left as it was.
pub open spec fn literal_feedback(
    before: TsetlinAutomaton,
    after: TsetlinAutomaton,
    value: bool,
    target: bool,
    output: bool,
) -> bool {
    let s = before.state_spec();
    let d = before.depth_spec();
    let t = after.state_spec();
    &&& after.wf()
    &&& after.depth_spec() == d
    &&& if target && output {
        t == if s > 0 {
            if value {
                reward_state(s, d)
            } else {
                penalize_state(s)
            }
        } else {
            s
        }
    } else if target {
        if s <= 0 && value {
            t == s || t == penalize_state(s)
        } else {
            t == s
        }
    } else if output {
        if s > 0 {
            t == s || t == penalize_state(s)
        } else {
            t == s
        }
    } else {
        t == s
    }
}

/// One feedback step on one literal's automaton, exactly, given what was
/// drawn for it (`None` when nothing was drawn). With specificity
/// `s = sn / sd`: under a positive target a firing clause rewards an
/// included literal that holds and penalizes one that does not, with no
/// draw; a silent clause draws `r < sn + sd` for an excluded literal that
/// holds and penalizes it when `r < sn`, that is with probability
/// `s / (s + 1)`. Under a negative target a firing clause draws `r < sn`
/// for an included literal and penalizes it when `r < sd`, that is with
/// probability `1 / s`. Every other literal draws nothing and stays.
pub open spec fn literal_step(
    before: TsetlinAutomaton,
    after: TsetlinAutomaton,
    value: bool,
    target: bool,
    output: bool,
    specificity: Ratio,
    draw: Option<u64>,
) -> bool {
    let s = before.state_spec();
    let d = before.depth_spec();
    let t = after.state_spec();
    let sn = specificity.numerator_spec();
    let sd = specificity.denominator_spec();
    &&& after.wf()
    &&& after.depth_spec() == d
    &&& if target && output {
        &&& draw is None
        &&& t == if s > 0 {
            if value {
                reward_state(s, d)
            } else {
                penalize_state(s)
            }
        } else {
            s
        }
    } else if target && s <= 0 && value {
        &&& draw is Some
        &&& draw.unwrap() < sn + sd
        &&& t == if draw.unwrap() < sn {
            penalize_state(s)
        } else {
            s
        }
    } else if !target && output && s > 0 {
        &&& draw is Some
        &&& draw.unwrap() < sn
        &&& t == if draw.unwrap() < sd {
            penalize_state(s)
        } else {
            s
        }
    } else {
        &&& draw is None
        &&& t == s
    }
}

/// A conjunction over `num_features` boolean features, with one automaton
/// for the literal `x[i]` and one for the literal `!x[i]`.
#[derive(Debug, Clone)]
pub struct Clause {
    positive_automata: Vec<TsetlinAutomaton>,
    negative_automata: Vec<TsetlinAutomaton>,
}

/// One feedback step on a whole clause: each literal's automaton moves as
/// `literal_feedback` allows, the shape stays.
pub open spec fn clause_feedback(
    before: Clause,
    after: Clause,
    input: Seq<bool>,
    target: bool,
    output: bool,
) -> bool {
    &&& after.num_features_spec() == before.num_features_spec()
    &&& after.negative().len() == before.negative().len()
    &&& forall|i: int|
        0 <= i < before.num_features_spec() ==> literal_feedback(
            before.positive()[i],
            #[trigger] after.positive()[i],
            input[i],
            target,
            output,
        ) && literal_feedback(before.negative()[i], after.negative()[i], !input[i], target, output)
}

/// `n` automata, each new with `num_states` states per action.
fn fresh_automata(n: usize, num_states: u32) -> (r: Vec<TsetlinAutomaton>)
    requires
        1 <= num_states <= i32::MAX,
    ensures
        r@.len() == n,
        forall|i: int|
            0 <= i < n ==> (#[trigger] r@[i]).wf() && r@[i].depth_spec() == num_states as int
                && r@[i].state_spec() == -(num_states as int),
{
    let mut v: Vec<TsetlinAutomaton> = Vec::new();
    let mut k: usize = 0;
    while k < n
        invariant
            k <= n,
            1 <= num_states <= i32::MAX,
            v@.len() == k,
            forall|i: int|
                0 <= i < k ==> (#[trigger] v@[i]).wf() && v@[i].depth_spec() == num_states as int
                    && v@[i].state_spec() == -(num_states as int),
        decreases n - k,
    {
        v.push(TsetlinAutomaton::new(num_states));
        k = k + 1;
    }
    v
}

/// Feedback on one literal's automaton, returning what was drawn for it;
/// see `literal_step`.
fn literal_update(
    a: &mut TsetlinAutomaton,
    value: bool,
    target: bool,
    output: bool,
    specificity: &Ratio,
    rng: &mut rand::rngs::StdRng,
) -> (r: Option<u64>)
    requires
        old(a).wf(),
        specificity.wf(),
    ensures
        literal_step(*old(a), *final(a), value, target, output, *specificity, r),
        literal_feedback(*old(a), *final(a), value, target, output),
{
    let s = specificity.numerator() as u64;
    let d = specificity.denominator() as u64;
    if target {
        if output {
            if a.action() == Action::Include {
                if value {
                    a.reward();
                } else {
                    a.penalize();
                }
            }
            None
        } else if a.action() == Action::Exclude && value {
            Some(a.update_with_probability(false, s, s + d, rng))
        } else {
            None
        }
    } else if output && a.action() == Action::Include {
        Some(a.update_with_probability(false, d, s, rng))
    } else {
        None
    }
}

impl Clause {
    /// The automata of the positive literals, by feature.
    pub closed spec fn positive(&self) -> Seq<TsetlinAutomaton> {
        self.positive_automata@
    }

    /// The automata of the negative literals, by feature.
    pub closed spec fn negative(&self) -> Seq<TsetlinAutomaton> {
        self.negative_automata@
    }

    pub open spec fn num_features_spec(&self) -> int {
        self.positive().len() as int
    }

    /// Both sequences have one automaton per feature, each well formed.
    pub open spec fn wf(&self) -> bool {
        &&& self.negative().len() == self.positive().len()
        &&& forall|i: int|
            0 <= i < self.num_features_spec() ==> (#[trigger] self.positive()[i]).wf()
                && self.negative()[i].wf()
    }

    /// Every automaton of the clause excludes its literal.
    pub open spec fn all_excluded(&self) -> bool {
        forall|i: int|
            0 <= i < self.num_features_spec() ==> (#[trigger] self.positive()[i]).state_spec() <= 0
                && self.negative()[i].state_spec() <= 0
    }

    /// Every automaton has `num_states` states per action and sits at the
    /// deepest exclude state.
    pub open spec fn is_fresh(&self, num_states: int) -> bool {
        forall|i: int|
            0 <= i < self.num_features_spec() ==> (#[trigger] self.positive()[i]).depth_spec()
                == num_states && self.positive()[i].state_spec() == -num_states
                && self.negative()[i].depth_spec() == num_states
                && self.negative()[i].state_spec() == -num_states
    }

    /// The clause's truth value on `input`.
    pub open spec fn holds(&self, input: Seq<bool>) -> bool {
        conjunction_holds(self.positive(), self.negative(), input)
    }

    /// A clause over `num_features` features with every literal excluded,
    /// at the deepest exclude state.
    pub fn new(num_features: usize, num_states: u32) -> (r: Self)
        requires
            1 <= num_states <= i32::MAX,
        ensures
            r.wf(),
            r.num_features_spec() == num_features,
            r.all_excluded(),
            r.is_fresh(num_states as int),
    {
        Clause {
            positive_automata: fresh_automata(num_features, num_states),
            negative_automata: fresh_automata(num_features, num_states),
        }
    }

    /// The number of features.
    pub fn num_features(&self) -> (r: usize)
        ensures
            r as int == self.num_features_spec(),
    {
        self.positive_automata.len()
    }

    /// The automaton of the positive literal of feature `i`.
    pub fn positive_automaton(&self, i: usize) -> (r: TsetlinAutomaton)
        requires
            i < self.num_features_spec(),
        ensures
            r == self.positive()[i as int],
    {
        self.positive_automata[i]
    }

    /// The automaton of the negative literal of feature `i`.
    pub fn negative_automaton(&self, i: usize) -> (r: TsetlinAutomaton)
        requires
            self.wf(),
            i < self.num_features_spec(),
        ensures
            r == self.negative()[i as int],
    {
        self.negative_automata[i]
    }

    /// Whether every included literal holds on `input`.
    pub fn evaluate(&self, input: &[bool]) -> (r: bool)
        requires
            self.wf(),
            input@.len() == self.num_features_spec(),
        ensures
            r == self.holds(input@),
    {
        let mut i: usize = 0;
        while i < input.len()
            invariant
                self.wf(),
                input@.len() == self.num_features_spec(),
                i <= input@.len(),
                forall|j: int|
                    0 <= j < i ==> literal_holds(#[trigger] self.positive()[j], input@[j])
                        && literal_holds(self.negative()[j], !input@[j]),
            decreases input@.len() - i,
        {
            if self.positive_automata[i].action() == Action::Include && !input[i] {
                return false;
            }
            if self.negative_automata[i].action() == Action::Include && input[i] {
                return false;
            }
            assert forall|j: int| 0 <= j < i + 1 implies literal_holds(
                #[trigger] self.positive()[j],
                input@[j],
            ) && literal_holds(self.negative()[j], !input@[j]) by {
                if j == i as int {
                    assert(literal_holds(self.negative()[i as int], !input@[i as int]));
                }
            }
            i = i + 1;
        }
        true
    }

    /// One feedback step. With a positive `target` (type I feedback): when
    /// the clause fired, each included literal is rewarded if it holds and
    /// penalized if not; when it did not, each excluded literal that holds
    /// is penalized with probability `s / (s + 1)`. With a negative target
    /// (type II feedback) and a firing clause, each included literal is
    /// penalized with probability `1 / s`. `s` is the specificity. Features
    /// are visited in order, the positive literal before the negative one,
    /// each probabilistic step drawing once from `rng`. Returns, for each
    /// feature, what was drawn for its positive and its negative literal;
    /// `literal_step` gives the outcome for every value drawn.
    pub fn update(
        &mut self,
        input: &[bool],
        target: bool,
        clause_output: bool,
        specificity: &Ratio,
        rng: &mut rand::rngs::StdRng,
    ) -> (draws: Vec<(Option<u64>, Option<u64>)>)
        requires
            old(self).wf(),
            input@.len() == old(self).num_features_spec(),
            specificity.wf(),
        ensures
            final(self).wf(),
            clause_feedback(*old(self), *final(self), input@, target, clause_output),
            draws@.len() == old(self).num_features_spec(),
            forall|i: int|
                0 <= i < old(self).num_features_spec() ==> literal_step(
                    old(self).positive()[i],
                    final(self).positive()[i],
                    input@[i],
                    target,
                    clause_output,
                    *specificity,
                    (#[trigger] draws@[i]).0,
                ) && literal_step(
                    old(self).negative()[i],
                    final(self).negative()[i],
                    !input@[i],
                    target,
                    clause_output,
                    *specificity,
                    draws@[i].1,
                ),
    {
        let ghost before = *self;
        let mut draws: Vec<(Option<u64>, Option<u64>)> = Vec::new();
        let mut i: usize = 0;
        while i < input.len()
            invariant
                before.wf(),
                specificity.wf(),
                input@.len() == before.num_features_spec(),
                i <= input@.len(),
                draws@.len() == i,
                self.positive().len() == before.positive().len(),
                self.negative().len() == before.negative().len(),
                forall|j: int|
                    0 <= j < i ==> literal_feedback(
                        before.positive()[j],
                        #[trigger] self.positive()[j],
                        input@[j],
                        target,
                        clause_output,
                    ) && literal_feedback(
                        before.negative()[j],
                        self.negative()[j],
                        !input@[j],
                        target,
                        clause_output,
                    ),
                forall|j: int|
                    0 <= j < i ==> literal_step(
                        before.positive()[j],
                        self.positive()[j],
                        input@[j],
                        target,
                        clause_output,
                        *specificity,
                        (#[trigger] draws@[j]).0,
                    ) && literal_step(
                        before.negative()[j],
                        self.negative()[j],
                        !input@[j],
                        target,
                        clause_output,
                        *specificity,
                        draws@[j].1,
                    ),
                forall|j: int|
                    i <= j < before.num_features_spec() ==> #[trigger] self.positive()[j]
                        == before.positive()[j],
                forall|j: int|
                    i <= j < before.num_features_spec() ==> #[trigger] self.negative()[j]
                        == before.negative()[j],
            decreases input@.len() - i,
        {
            let mut a = self.positive_automata[i];
            let p = literal_update(&mut a, input[i], target, clause_output, specificity, rng);
            self.positive_automata.set(i, a);
            let mut b = self.negative_automata[i];
            let q = literal_update(&mut b, !input[i], target, clause_output, specificity, rng);
            self.negative_automata.set(i, b);
            draws.push((p, q));
            i = i + 1;
        }
        assert forall|j: int| 0 <= j < before.num_features_spec() implies literal_feedback(
            before.positive()[j],
            #[trigger] self.positive()[j],
            input@[j],
            target,
            clause_output,
        ) && literal_feedback(before.negative()[j], self.negative()[j], !input@[j], target, clause_output) by {}
        assert(self.num_features_spec() == before.num_features_spec());
        assert(clause_feedback(before, *self, input@, target, clause_output));
        draws
    }
}

/// The vote of one clause: one for or against, by its polarity, when it
/// holds; nothing when it does not.
pub open spec fn clause_vote(c: Clause, polarity: bool, input: Seq<bool>) -> int {
    if c.holds(input) {
        if polarity {
            1
        } else {
            -1
        }
    } else {
        0
    }
}

/// The sum of the votes of the first `n` clauses.
pub open spec fn vote_sum(clauses: Seq<Clause>, polarities: Seq<bool>, input: Seq<bool>, n: nat) -> int
    decreases n,
{
    if n == 0 {
        0
    } else {
        vote_sum(clauses, polarities, input, (n - 1) as nat) + clause_vote(
            clauses[n - 1],
            polarities[n - 1],
            input,
        )
    }
}

/// Whether a vote lets feedback through: below the threshold for a positive
/// target, above its negation for a negative one.
pub open spec fn feedback_gate(vote: int, target: bool, threshold: int) -> bool {
    if target {
        vote < threshold
    } else {
        vote > -threshold
    }
}

/// One training step of a bank on a sample: the shape and polarities stay;
/// if the vote lets feedback through, each clause takes one feedback step
/// with its polarity-adjusted target and its own output on `input`,
/// otherwise every clause stays as it was.
pub open spec fn bank_step(
    before: ClauseBank,
    after: ClauseBank,
    input: Seq<bool>,
    target: bool,
    threshold: Ratio,
) -> bool {
    &&& after.wf()
    &&& after.num_features_spec() == before.num_features_spec()
    &&& after.num_clauses_spec() == before.num_clauses_spec()
    &&& after.polarities_spec() == before.polarities_spec()
    &&& forall|j: int|
        0 <= j < before.num_clauses_spec() ==> if feedback_gate(
            before.vote_spec(input),
            target,
            threshold.truncated(),
        ) {
            clause_feedback(
                before.clauses_spec()[j],
                #[trigger] after.clauses_spec()[j],
                input,
                if before.polarities_spec()[j] {
                    target
                } else {
                    !target
                },
                before.clauses_spec()[j].holds(input),
            )
        } else {
            after.clauses_spec()[j] == before.clauses_spec()[j]
        }
}

/// An even-sized ensemble of clauses: the first half vote for the positive
/// class, the second half against it.
#[derive(Debug, Clone)]
pub struct ClauseBank {
    clauses: Vec<Clause>,
    polarities: Vec<bool>,
    num_features: usize,
}

impl ClauseBank {
    pub closed spec fn clauses_spec(&self) -> Seq<Clause> {
        self.clauses@
    }

    /// The polarity of each clause: `true` votes for the positive class.
    pub closed spec fn polarities_spec(&self) -> Seq<bool> {
        self.polarities@
    }

    pub closed spec fn num_features_spec(&self) -> int {
        self.num_features as int
    }

    pub open spec fn num_clauses_spec(&self) -> int {
        self.clauses_spec().len() as int
    }

    /// One polarity per clause, the first half positive; every clause well
    /// formed over the bank's features; the vote fits an `i32`.
    pub open spec fn wf(&self) -> bool {
        &&& self.polarities_spec().len() == self.num_clauses_spec()
        &&& self.num_clauses_spec() <= i32::MAX
        &&& forall|j: int|
            0 <= j < self.num_clauses_spec() ==> (#[trigger] self.clauses_spec()[j]).wf()
                && self.clauses_spec()[j].num_features_spec() == self.num_features_spec()
        &&& forall|j: int|
            0 <= j < self.num_clauses_spec() ==> #[trigger] self.polarities_spec()[j] == (j
                < self.num_clauses_spec() / 2)
    }

    /// The vote on `input`: the number of firing positive clauses less the
    /// number of firing negative ones.
    pub open spec fn vote_spec(&self, input: Seq<bool>) -> int {
        vote_sum(self.clauses_spec(), self.polarities_spec(), input, self.num_clauses_spec() as nat)
    }

    /// A bank of `num_clauses` fresh clauses over `num_features` features.
    pub fn new(num_features: usize, num_clauses: usize, num_states: u32) -> (r: Self)
        requires
            1 <= num_states <= i32::MAX,
            num_clauses <= i32::MAX,
        ensures
            r.wf(),
            r.num_features_spec() == num_features,
            r.num_clauses_spec() == num_clauses,
            forall|j: int|
                0 <= j < num_clauses ==> (#[trigger] r.clauses_spec()[j]).is_fresh(
                    num_states as int,
                ) && r.clauses_spec()[j].all_excluded(),
    {
        let mut clauses: Vec<Clause> = Vec::new();
        let mut polarities: Vec<bool> = Vec::new();
        let half = num_clauses / 2;
        let mut k: usize = 0;
        while k < num_clauses
            invariant
                k <= num_clauses,
                half == num_clauses / 2,
                1 <= num_states <= i32::MAX,
                clauses@.len() == k,
                polarities@.len() == k,
                forall|j: int|
                    0 <= j < k ==> (#[trigger] clauses@[j]).wf() && clauses@[j].num_features_spec()
                        == num_features && clauses@[j].is_fresh(num_states as int)
                        && clauses@[j].all_excluded(),
                forall|j: int| 0 <= j < k ==> #[trigger] polarities@[j] == (j < half),
            decreases num_clauses - k,
        {
            clauses.push(Clause::new(num_features, num_states));
            polarities.push(k < half);
            k = k + 1;
        }
        ClauseBank { clauses, polarities, num_features }
    }

    /// The number of features each clause reads.
    pub fn num_features(&self) -> (r: usize)
        ensures
            r as int == self.num_features_spec(),
    {
        self.num_features
    }

    /// The number of clauses.
    pub fn num_clauses(&self) -> (r: usize)
        ensures
            r as int == self.num_clauses_spec(),
    {
        self.clauses.len()
    }

    /// The clause at index `j`.
    pub fn clause(&self, j: usize) -> (r: &Clause)
        requires
            j < self.num_clauses_spec(),
        ensures
            *r == self.clauses_spec()[j as int],
    {
        &self.clauses[j]
    }

    /// The polarity of the clause at index `j`.
    pub fn polarity(&self, j: usize) -> (r: bool)
        requires
            self.wf(),
            j < self.num_clauses_spec(),
        ensures
            r == self.polarities_spec()[j as int],
    {
        self.polarities[j]
    }

    /// Sums the signed outputs of all clauses on `input`.
    pub fn vote(&self, input: &[bool]) -> (r: i32)
        requires
            self.wf(),
            input@.len() == self.num_features_spec(),
        ensures
            r as int == self.vote_spec(input@),
    {
        let mut sum: i32 = 0;
        let mut j: usize = 0;
        while j < self.clauses.len()
            invariant
                self.wf(),
                input@.len() == self.num_features_spec(),
                j <= self.num_clauses_spec(),
                sum as int == vote_sum(self.clauses_spec(), self.polarities_spec(), input@, j as nat),
                -(j as int) <= sum <= j,
            decreases self.num_clauses_spec() - j,
        {
            if self.clauses[j].evaluate(input) {
                if self.polarities[j] {
                    sum = sum + 1;
                } else {
                    sum = sum - 1;
                }
            }
            j = j + 1;
        }
        sum
    }

    /// One training step on a sample. The vote is taken once; if it lets
    /// feedback through (see `feedback_gate`), each clause, in order, gets
    /// feedback with its own output on `input` and a target of `target` for
    /// a positive clause, `!target` for a negative one. Otherwise nothing
    /// changes.
    pub fn update(
        &mut self,
        input: &[bool],
        target: bool,
        threshold: &Ratio,
        specificity: &Ratio,
        rng: &mut rand::rngs::StdRng,
    )
        requires
            old(self).wf(),
            input@.len() == old(self).num_features_spec(),
            threshold.wf(),
            specificity.wf(),
        ensures
            bank_step(*old(self), *final(self), input@, target, *threshold),
    {
        let vote = self.vote(input) as i64;
        let t = threshold.truncate() as i64;
        let gate = if target {
            vote < t
        } else {
            vote > -t
        };
        if !gate {
            return;
        }
        let ghost before = *self;
        let mut j: usize = 0;
        while j < self.clauses.len()
            invariant
                before.wf(),
                threshold.wf(),
                specificity.wf(),
                input@.len() == before.num_features_spec(),
                j <= before.num_clauses_spec(),
                self.num_clauses_spec() == before.num_clauses_spec(),
                self.polarities_spec() == before.polarities_spec(),
                self.num_features_spec() == before.num_features_spec(),
                forall|k: int|
                    0 <= k < j ==> clause_feedback(
                        before.clauses_spec()[k],
                        #[trigger] self.clauses_spec()[k],
                        input@,
                        if before.polarities_spec()[k] {
                            target
                        } else {
                            !target
                        },
                        before.clauses_spec()[k].holds(input@),
                    ) && self.clauses_spec()[k].wf(),
                forall|k: int|
                    j <= k < before.num_clauses_spec() ==> #[trigger] self.clauses_spec()[k]
                        == before.clauses_spec()[k],
            decreases before.num_clauses_spec() - j,
        {
            let output = self.clauses[j].evaluate(input);
            let clause_target = if self.polarities[j] {
                target
            } else {
                !target
            };
            self.clauses[j].update(input, clause_target, output, specificity, rng);
            j = j + 1;
        }
    }
}

/// On a bank whose clauses all exclude every literal, every clause fires, so
/// the first `k` clauses vote `k` while in the positive half and lose one
/// per clause of the negative half.
proof fn lemma_excluded_vote_prefix(bank: ClauseBank, input: Seq<bool>, k: nat)
    requires
        bank.wf(),
        input.len() == bank.num_features_spec(),
        k <= bank.num_clauses_spec(),
        forall|j: int|
            0 <= j < bank.num_clauses_spec() ==> (#[trigger] bank.clauses_spec()[j]).all_excluded(),
    ensures
        vote_sum(bank.clauses_spec(), bank.polarities_spec(), input, k) == if k <= bank.num_clauses_spec()
            / 2 {
            k as int
        } else {
            2 * (bank.num_clauses_spec() / 2) - k
        },
    decreases k,
{
    if k > 0 {
        lemma_excluded_vote_prefix(bank, input, (k - 1) as nat);
        lemma_excluded_clause_holds(bank.clauses_spec()[k - 1], input);
    }
}

/// A bank with an even number of clauses, all of which exclude every
/// literal, votes zero on every input: each positive clause that fires is
/// matched by a negative one.
pub proof fn lemma_excluded_bank_votes_zero(bank: ClauseBank, input: Seq<bool>)
    requires
        bank.wf(),
        bank.num_clauses_spec() % 2 == 0,
        input.len() == bank.num_features_spec(),
        forall|j: int|
            0 <= j < bank.num_clauses_spec() ==> (#[trigger] bank.clauses_spec()[j]).all_excluded(),
    ensures
        bank.vote_spec(input) == 0,
{
    lemma_excluded_vote_prefix(bank, input, bank.num_clauses_spec() as nat);
}

/// A clause with every literal excluded holds on every input.
pub proof fn lemma_excluded_clause_holds(c: Clause, input: Seq<bool>)
    requires
        c.all_excluded(),
        input.len() <= c.num_features_spec(),
    ensures
        c.holds(input),
{
}

} // verus!
