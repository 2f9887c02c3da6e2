//! A Tsetlin machine: an interpretable binary classifier built from
//! two-action learning automata that vote, through conjunctions of boolean
//! literals, on a binary outcome.
use vstd::prelude::*;

pub mod automaton;
pub mod clause;
pub mod machine;
pub mod matrix;
pub mod random;
pub mod ratio;

pub use machine::TsetlinMachine;

use matrix::BoolMatrix;

verus! {

/// The truth table of exclusive or over two inputs, one row per input pair.
pub open spec fn xor_rows() -> Seq<Seq<bool>> {
    seq![seq![true, false], seq![false, true], seq![true, true], seq![false, false]]
}

/// The exclusive-or truth table as samples and labels: `[true, false]` and
/// `[false, true]` are labelled `true`, `[true, true]` and `[false, false]`
/// are labelled `false`.
pub fn generate_xor_dataset() -> (r: (BoolMatrix, Vec<bool>))
    ensures
        r.0.wf(),
        r.0.ncols_spec() == 2,
        r.0.rows_spec() == xor_rows(),
        r.1@ == seq![true, true, false, false],
        forall|i: int| 0 <= i < 4 ==> r.1@[i] == (xor_rows()[i][0] != xor_rows()[i][1]),
{
    let rows = vec![vec![true, false], vec![false, true], vec![true, true], vec![false, false]];
    let ghost view = rows@.map_values(|v: Vec<bool>| v@);
    assert(view =~= xor_rows());
    let features = BoolMatrix::from_rows(rows, 2).unwrap();
    let labels = vec![true, true, false, false];
    (features, labels)
}

} // verus!
