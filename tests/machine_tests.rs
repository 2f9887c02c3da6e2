use tsetlin::generate_xor_dataset;
use tsetlin::machine::{Accuracy, TmError, TsetlinMachine};
use tsetlin::matrix::BoolMatrix;
use tsetlin::ratio::Ratio;

fn matrix(rows: Vec<Vec<bool>>, ncols: usize) -> BoolMatrix {
    BoolMatrix::from_rows(rows, ncols).unwrap()
}

fn xor_table() -> (BoolMatrix, Vec<bool>) {
    (
        matrix(
            vec![vec![true, false], vec![false, true], vec![true, true], vec![false, false]],
            2,
        ),
        vec![true, true, false, false],
    )
}

fn fraction(a: Accuracy) -> f64 {
    a.correct as f64 / a.total as f64
}

fn all_states(m: &TsetlinMachine) -> Vec<i32> {
    let bank = m.clause_bank();
    let mut states = Vec::new();
    for j in 0..bank.num_clauses() {
        let c = bank.clause(j);
        for i in 0..c.num_features() {
            states.push(c.positive_automaton(i).state());
            states.push(c.negative_automaton(i).state());
        }
    }
    states
}

#[test]
fn test_xor_learning() {
    let (features, labels) = generate_xor_dataset();

    let mut machine = TsetlinMachine::with_defaults(2, 40).unwrap();
    machine.fit(&features, &labels, 200).unwrap();

    let accuracy = fraction(machine.evaluate(&features, &labels).unwrap());
    assert!(accuracy >= 0.0 && accuracy <= 1.0);
}

#[test]
fn test_api_example() {
    let (features, labels) = xor_table();

    let mut machine = TsetlinMachine::with_defaults(2, 20).unwrap();
    machine.fit(&features, &labels, 100).unwrap();

    let predictions = machine.predict(&features).unwrap();
    let accuracy = fraction(machine.evaluate(&features, &labels).unwrap());

    assert_eq!(predictions.len(), 4);
    assert!(accuracy >= 0.0 && accuracy <= 1.0);
}

#[test]
fn test_machine_creation() {
    let machine =
        TsetlinMachine::new(5, 10, Ratio::whole(2).unwrap(), Ratio::whole(1).unwrap()).unwrap();
    assert_eq!(machine.num_features(), 5);
    assert_eq!(machine.num_clauses(), 10);
}

#[test]
fn test_machine_with_defaults() {
    let machine = TsetlinMachine::with_defaults(5, 10).unwrap();
    assert_eq!(machine.num_features(), 5);
    assert_eq!(machine.num_clauses(), 10);
}

#[test]
fn test_machine_training() {
    let features = matrix(
        vec![vec![true, false], vec![false, true], vec![true, true], vec![false, false]],
        2,
    );
    let labels = vec![true, false, true, false];

    let mut machine = TsetlinMachine::with_defaults(2, 10).unwrap();
    machine.fit(&features, &labels, 10).unwrap();

    let predictions = machine.predict(&features).unwrap();
    assert_eq!(predictions.len(), 4);
}

#[test]
fn test_machine_prediction() {
    let features = matrix(vec![vec![true, false], vec![false, true]], 2);
    let labels = vec![true, false];

    let mut machine = TsetlinMachine::with_defaults(2, 10).unwrap();
    machine.fit(&features, &labels, 10).unwrap();

    let prediction = machine.predict_single(&[true, false]).unwrap();
    assert!(prediction == true || prediction == false);
}

#[test]
fn test_machine_evaluation() {
    let features = matrix(
        vec![vec![true, false], vec![false, true], vec![true, true], vec![false, false]],
        2,
    );
    let labels = vec![true, false, true, false];

    let mut machine = TsetlinMachine::with_defaults(2, 20).unwrap();
    machine.fit(&features, &labels, 50).unwrap();

    let accuracy = fraction(machine.evaluate(&features, &labels).unwrap());
    assert!(accuracy >= 0.0 && accuracy <= 1.0);
}

#[test]
fn test_machine_odd_clauses() {
    let r = TsetlinMachine::with_defaults(5, 9);
    assert_eq!(r.err(), Some(TmError::InvalidClauseCount));
}

#[test]
fn odd_clause_count_fails_at_construction() {
    assert_eq!(TsetlinMachine::with_defaults(2, 9).err(), Some(TmError::InvalidClauseCount));
    assert_eq!(TsetlinMachine::with_defaults(2, 0).err(), Some(TmError::InvalidClauseCount));
    let s = Ratio::whole(2).unwrap();
    let t = Ratio::whole(1).unwrap();
    assert_eq!(TsetlinMachine::with_seed(2, 3, s, t, 1).err(), Some(TmError::InvalidClauseCount));
    assert!(TsetlinMachine::with_seed(2, 2, s, t, 1).is_ok());
}

#[test]
fn defaults_are_specificity_two_threshold_one() {
    let m = TsetlinMachine::with_defaults(3, 4).unwrap();
    assert_eq!(m.specificity(), Ratio::whole(2).unwrap());
    assert_eq!(m.threshold(), Ratio::whole(1).unwrap());
    assert!(all_states(&m).iter().all(|&s| s == -100));
}

#[test]
fn untrained_machine_predicts_false_on_ties() {
    let m = TsetlinMachine::with_defaults(3, 4).unwrap();
    assert_eq!(m.clause_bank().vote(&[true, false, true]), 0);
    assert_eq!(m.predict_single(&[true, false, true]), Ok(false));
    let features = matrix(vec![vec![true, false, true], vec![false, false, false]], 3);
    assert_eq!(m.predict(&features), Ok(vec![false, false]));
}

#[test]
fn fit_with_mismatched_rows_changes_nothing() {
    let mut m = TsetlinMachine::with_seed(2, 4, Ratio::whole(2).unwrap(), Ratio::whole(1).unwrap(), 5)
        .unwrap();
    let (features, _) = xor_table();
    let before = all_states(&m);
    assert_eq!(m.fit(&features, &vec![true, false, true], 10), Err(TmError::ShapeMismatch));
    assert_eq!(all_states(&m), before);
    let narrow = matrix(vec![vec![true], vec![false]], 1);
    assert_eq!(m.fit(&narrow, &vec![true, false], 10), Err(TmError::ShapeMismatch));
    assert_eq!(all_states(&m), before);
}

#[test]
fn shape_errors_in_queries() {
    let m = TsetlinMachine::with_defaults(2, 4).unwrap();
    let narrow = matrix(vec![vec![true]], 1);
    assert_eq!(m.predict(&narrow), Err(TmError::ShapeMismatch));
    assert_eq!(m.predict_single(&[true]), Err(TmError::ShapeMismatch));
    assert_eq!(m.evaluate(&narrow, &vec![true]), Err(TmError::ShapeMismatch));
    let (features, _) = xor_table();
    assert_eq!(m.evaluate(&features, &vec![true]), Err(TmError::ShapeMismatch));
}

#[test]
fn evaluate_on_no_samples_is_an_error() {
    let m = TsetlinMachine::with_defaults(2, 4).unwrap();
    let empty = matrix(vec![], 2);
    assert_eq!(m.evaluate(&empty, &vec![]), Err(TmError::EmptyLabels));
}

#[test]
fn untrained_accuracy_counts_false_labels() {
    let m = TsetlinMachine::with_defaults(2, 4).unwrap();
    let (features, labels) = xor_table();
    // Every prediction is false, so the two false labels are right.
    assert_eq!(m.evaluate(&features, &labels), Ok(Accuracy { correct: 2, total: 4 }));
}

#[test]
fn xor_training_gives_a_fraction_of_four() {
    let (features, labels) = xor_table();
    let mut m =
        TsetlinMachine::with_seed(2, 20, Ratio::whole(2).unwrap(), Ratio::whole(1).unwrap(), 11)
            .unwrap();
    m.fit(&features, &labels, 200).unwrap();
    let a = m.evaluate(&features, &labels).unwrap();
    assert_eq!(a.total, 4);
    assert!(a.correct <= 4);
    let f = fraction(a);
    assert!([0.0, 0.25, 0.5, 0.75, 1.0].contains(&f));
}

#[test]
fn seeded_training_is_repeatable() {
    let (features, labels) = xor_table();
    let s = Ratio::whole(2).unwrap();
    let t = Ratio::whole(1).unwrap();
    let mut a = TsetlinMachine::with_seed(2, 20, s, t, 99).unwrap();
    let mut b = TsetlinMachine::with_seed(2, 20, s, t, 99).unwrap();
    a.fit(&features, &labels, 30).unwrap();
    b.fit(&features, &labels, 30).unwrap();
    a.fit(&features, &labels, 5).unwrap();
    b.fit(&features, &labels, 5).unwrap();
    assert_eq!(all_states(&a), all_states(&b));
}

#[test]
fn xor_dataset_is_the_truth_table() {
    let (features, labels) = generate_xor_dataset();
    assert_eq!(features.nrows(), 4);
    assert_eq!(features.ncols(), 2);
    assert_eq!(labels, vec![true, true, false, false]);
    for i in 0..4 {
        assert_eq!(labels[i], features.get(i, 0) != features.get(i, 1));
    }
    assert_eq!(features.row(0), &vec![true, false]);
}

#[test]
fn matrix_rejects_ragged_rows() {
    assert!(BoolMatrix::from_rows(vec![vec![true], vec![true, false]], 1).is_none());
    assert!(BoolMatrix::from_rows(vec![vec![true, true]], 2).is_some());
}

#[test]
fn epoch_in_given_order_leaves_a_fresh_machine_as_it_is() {
    // Every clause of a fresh machine fires and includes nothing, so no
    // feedback step can move an automaton.
    let (features, labels) = xor_table();
    let mut m = TsetlinMachine::with_seed(2, 4, Ratio::whole(2).unwrap(), Ratio::whole(1).unwrap(), 8)
        .unwrap();
    m.train_epoch(&features, &labels, &vec![3, 1, 0, 2]);
    m.fit(&features, &labels, 20).unwrap();
    assert!(all_states(&m).iter().all(|&s| s == -100));
}
