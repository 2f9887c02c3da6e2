//! A rectangular table of booleans: one row per sample, one column per
//! feature.
use vstd::prelude::*;

verus! {

/// A table of booleans whose rows all have `ncols` entries.
#[derive(Debug, Clone)]
pub struct BoolMatrix {
    rows: Vec<Vec<bool>>,
    ncols: usize,
}

impl BoolMatrix {
    /// The table, row by row.
    pub closed spec fn rows_spec(&self) -> Seq<Seq<bool>> {
        self.rows@.map_values(|r: Vec<bool>| r@)
    }

    pub closed spec fn ncols_spec(&self) -> int {
        self.ncols as int
    }

    pub open spec fn nrows_spec(&self) -> int {
        self.rows_spec().len() as int
    }

    /// Every row has `ncols` entries.
    pub open spec fn wf(&self) -> bool {
        forall|i: int| 0 <= i < self.nrows_spec() ==> (#[trigger] self.rows_spec()[i]).len() == self.ncols_spec()
    }

    /// The table with the given rows, each of `ncols` entries, or `None` when
    /// a row has another length.
    pub fn from_rows(rows: Vec<Vec<bool>>, ncols: usize) -> (r: Option<BoolMatrix>)
        ensures
            r.is_some() <==> forall|i: int| 0 <= i < rows@.len() ==> (#[trigger] rows@[i]@).len() == ncols,
            r matches Some(m) ==> m.wf() && m.ncols_spec() == ncols && m.rows_spec() == rows@.map_values(
                |v: Vec<bool>| v@,
            ),
    {
        let mut i: usize = 0;
        while i < rows.len()
            invariant
                i <= rows@.len(),
                forall|k: int| 0 <= k < i ==> (#[trigger] rows@[k]@).len() == ncols,
            decreases rows@.len() - i,
        {
            if rows[i].len() != ncols {
                return None;
            }
            i = i + 1;
        }
        Some(BoolMatrix { rows, ncols })
    }

    /// The number of rows.
    pub fn nrows(&self) -> (r: usize)
        ensures
            r as int == self.nrows_spec(),
    {
        self.rows.len()
    }

    /// The number of columns.
    pub fn ncols(&self) -> (r: usize)
        ensures
            r as int == self.ncols_spec(),
    {
        self.ncols
    }

    /// Row `i`.
    pub fn row(&self, i: usize) -> (r: &Vec<bool>)
        requires
            i < self.nrows_spec(),
        ensures
            r@ == self.rows_spec()[i as int],
    {
        &self.rows[i]
    }

    /// The entry at row `i`, column `j`.
    pub fn get(&self, i: usize, j: usize) -> (r: bool)
        requires
            self.wf(),
            i < self.nrows_spec(),
            j < self.ncols_spec(),
        ensures
            r == self.rows_spec()[i as int][j as int],
    {
        assert(self.rows_spec()[i as int] == self.rows@[i as int]@);
        self.rows[i][j]
    }
}

} // verus!
