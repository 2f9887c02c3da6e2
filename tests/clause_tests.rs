use rand::SeedableRng;
use tsetlin::automaton::Action;
use tsetlin::clause::{Clause, ClauseBank};
use tsetlin::ratio::Ratio;

#[test]
fn test_clause_evaluation() {
    let clause = Clause::new(3, 100);
    let input = vec![true, false, true];
    assert!(clause.evaluate(&input));
}

#[test]
fn test_clause_bank_voting() {
    let bank = ClauseBank::new(3, 4, 100);
    let input = vec![true, false, true];
    assert_eq!(bank.vote(&input), 0);
}

#[test]
fn test_clause_bank_update() {
    let mut bank = ClauseBank::new(3, 4, 100);
    let mut rng = rand::rngs::StdRng::seed_from_u64(42);
    let input = vec![true, false, true];

    bank.update(&input, true, &Ratio::whole(1).unwrap(), &Ratio::whole(2).unwrap(), &mut rng);

    assert_eq!(bank.num_clauses(), 4);
}

#[test]
fn excluded_clause_holds_on_every_input() {
    let clause = Clause::new(3, 100);
    for bits in 0..8u32 {
        let input: Vec<bool> = (0..3).map(|i| bits & (1 << i) != 0).collect();
        assert!(clause.evaluate(&input));
    }
}

#[test]
fn excluded_bank_votes_zero_on_every_input() {
    let bank = ClauseBank::new(3, 4, 100);
    for bits in 0..8u32 {
        let input: Vec<bool> = (0..3).map(|i| bits & (1 << i) != 0).collect();
        assert_eq!(bank.vote(&input), 0);
    }
}

#[test]
fn bank_polarity_splits_in_halves() {
    let bank = ClauseBank::new(2, 6, 10);
    let polarities: Vec<bool> = (0..6).map(|j| bank.polarity(j)).collect();
    assert_eq!(polarities, vec![true, true, true, false, false, false]);
    assert_eq!(bank.num_features(), 2);
}

fn clause_with_included_positive_literal() -> Clause {
    // Type I feedback with a firing clause and input false on feature 0
    // penalizes nothing (all excluded), so drive the automaton through
    // type I feedback on a silent clause with certain probability instead.
    let mut clause = Clause::new(2, 1);
    let mut rng = rand::rngs::StdRng::seed_from_u64(1);
    // specificity s = 1_000_000: inclusion probability s/(s+1) is near one.
    let s = Ratio::whole(1_000_000).unwrap();
    let input = vec![true, false];
    for _ in 0..2 {
        clause.update(&input, true, false, &s, &mut rng);
    }
    clause
}

#[test]
fn type_one_feedback_on_silent_clause_moves_matching_literals() {
    let clause = clause_with_included_positive_literal();
    // Literal x0 holds on [true, false], and literal !x1 holds too.
    assert_eq!(clause.positive_automaton(0).action(), Action::Include);
    assert_eq!(clause.negative_automaton(1).action(), Action::Include);
    // Literals that do not hold are untouched.
    assert_eq!(clause.positive_automaton(1).state(), -1);
    assert_eq!(clause.negative_automaton(0).state(), -1);
    assert!(clause.evaluate(&[true, false]));
    assert!(!clause.evaluate(&[false, false]));
    assert!(!clause.evaluate(&[true, true]));
}

#[test]
fn type_one_feedback_on_firing_clause_rewards_and_penalizes() {
    let mut clause = clause_with_included_positive_literal();
    let mut rng = rand::rngs::StdRng::seed_from_u64(2);
    let s = Ratio::whole(2).unwrap();
    // x0 = false contradicts the included literal x0: penalized to 0.
    clause.update(&[false, false], true, true, &s, &mut rng);
    assert_eq!(clause.positive_automaton(0).state(), 0);
    // !x1 holds on [false, false]: rewarded, saturating at the depth of 1.
    assert_eq!(clause.negative_automaton(1).state(), 1);
}

#[test]
fn type_two_feedback_with_certain_probability_penalizes_included() {
    let mut clause = clause_with_included_positive_literal();
    let mut rng = rand::rngs::StdRng::seed_from_u64(3);
    // specificity 1: probability 1/s of one.
    let s = Ratio::whole(1).unwrap();
    clause.update(&[true, false], false, true, &s, &mut rng);
    assert_eq!(clause.positive_automaton(0).state(), 0);
    assert_eq!(clause.negative_automaton(1).state(), 0);
    // A silent clause gets no type II feedback.
    let mut other = clause_with_included_positive_literal();
    other.update(&[false, true], false, false, &s, &mut rng);
    assert_eq!(other.positive_automaton(0).state(), 1);
}

#[test]
fn vote_counts_firing_clauses_by_polarity() {
    let mut bank = ClauseBank::new(2, 2, 1);
    let mut rng = rand::rngs::StdRng::seed_from_u64(4);
    let s = Ratio::whole(1_000_000).unwrap();
    let t = Ratio::whole(5).unwrap();
    // Target true, vote 0 < 5: the positive clause gets type I feedback on
    // a firing clause (all excluded: nothing moves) and the negative one
    // type II (nothing included: nothing moves).
    bank.update(&[true, true], true, &t, &s, &mut rng);
    assert_eq!(bank.vote(&[true, true]), 0);
    assert_eq!(bank.clause(0).positive_automaton(0).state(), -1);
}

#[test]
fn ratio_rejects_zero_parts() {
    assert!(Ratio::new(0, 1).is_none());
    assert!(Ratio::new(1, 0).is_none());
    assert!(Ratio::whole(0).is_none());
    let r = Ratio::new(7, 2).unwrap();
    assert_eq!(r.numerator(), 7);
    assert_eq!(r.denominator(), 2);
    assert_eq!(r.truncate(), 3);
    assert_eq!(Ratio::new(1, 3).unwrap().truncate(), 0);
}

#[test]
fn clause_update_reports_one_draw_per_probabilistic_literal() {
    let mut clause = clause_with_included_positive_literal();
    let mut rng = rand::rngs::StdRng::seed_from_u64(5);
    // Type II with specificity 3/2: included literals draw below 3 and are
    // penalized when the draw is below 2; excluded ones draw nothing.
    let s = Ratio::new(3, 2).unwrap();
    let before_pos0 = clause.positive_automaton(0).state();
    let before_neg1 = clause.negative_automaton(1).state();
    let draws = clause.update(&[true, false], false, true, &s, &mut rng);
    assert_eq!(draws.len(), 2);
    assert_eq!(draws[0].1, None);
    assert_eq!(draws[1].0, None);
    let r = draws[0].0.unwrap();
    assert!(r < 3);
    assert_eq!(clause.positive_automaton(0).state(), if r < 2 { before_pos0 - 1 } else { before_pos0 });
    let q = draws[1].1.unwrap();
    assert!(q < 3);
    assert_eq!(clause.negative_automaton(1).state(), if q < 2 { before_neg1 - 1 } else { before_neg1 });
}

#[test]
fn deterministic_feedback_draws_nothing() {
    let mut clause = Clause::new(2, 5);
    let mut rng = rand::rngs::StdRng::seed_from_u64(6);
    let draws = clause.update(&[true, false], true, true, &Ratio::whole(2).unwrap(), &mut rng);
    assert_eq!(draws, vec![(None, None), (None, None)]);
    // Type I on a silent clause draws for each excluded literal that holds.
    let draws = clause.update(&[true, false], true, false, &Ratio::whole(2).unwrap(), &mut rng);
    assert!(draws[0].0.is_some() && draws[0].1.is_none());
    assert!(draws[1].0.is_none() && draws[1].1.is_some());
    assert!(draws[0].0.unwrap() < 3 && draws[1].1.unwrap() < 3);
}
