//! The rows and columns of one query result, as the database sent them.
use crate::value::Oid;
use vstd::prelude::*;

verus! {

/// What a result holds: the name and type of each column, and for each row
/// one cell per column, `None` for SQL `NULL`.
pub struct PgResultView {
    pub column_names: Seq<Option<Seq<char>>>,
    pub column_types: Seq<Oid>,
    pub rows: Seq<Seq<Option<Seq<u8>>>>,
}

impl PgResultView {
    /// Every column has a name entry and a type, and every row one cell per
    /// column.
    pub open spec fn well_formed(self) -> bool {
        &&& self.column_names.len() == self.column_types.len()
        &&& forall|r: int|
            0 <= r < self.rows.len() ==> #[trigger] self.rows[r].len() == self.column_types.len()
    }

    pub open spec fn column_count(self) -> nat {
        self.column_types.len()
    }
}

/// The result of one query.
pub struct PgResult {
    column_names: Vec<Option<String>>,
    column_types: Vec<Oid>,
    rows: Vec<Vec<Option<Vec<u8>>>>,
}

pub open spec fn cell_view(cell: Option<Vec<u8>>) -> Option<Seq<u8>> {
    match cell {
        Some(bytes) => Some(bytes@),
        None => None,
    }
}

pub open spec fn name_view(name: Option<String>) -> Option<Seq<char>> {
    match name {
        Some(n) => Some(n@),
        None => None,
    }
}

pub open spec fn row_view(row: Vec<Option<Vec<u8>>>) -> Seq<Option<Seq<u8>>> {
    row@.map_values(|cell: Option<Vec<u8>>| cell_view(cell))
}

impl View for PgResult {
    type V = PgResultView;

    closed spec fn view(&self) -> PgResultView {
        PgResultView {
            column_names: self.column_names@.map_values(|n: Option<String>| name_view(n)),
            column_types: self.column_types@,
            rows: self.rows@.map_values(|row: Vec<Option<Vec<u8>>>| row_view(row)),
        }
    }
}

impl PgResult {
    #[verifier::type_invariant]
    spec fn shape(self) -> bool {
        &&& self.column_names.len() == self.column_types.len()
        &&& forall|r: int|
            0 <= r < self.rows.len() ==> #[trigger] self.rows[r].len() == self.column_types.len()
    }

    proof fn lemma_view_well_formed(&self)
        requires
            self.shape(),
        ensures
            self@.well_formed(),
    {
        assert forall|r: int| 0 <= r < self@.rows.len() implies #[trigger] self@.rows[r].len()
            == self@.column_types.len() by {
            assert(self.rows[r].len() == self.column_types.len());
            assert(self@.rows[r] == row_view(self.rows[r]));
        }
    }

    /// Builds a result from its columns and rows; `None` unless every row has
    /// one cell per column and there are as many names as types.
    pub fn from_parts(
        column_names: Vec<Option<String>>,
        column_types: Vec<Oid>,
        rows: Vec<Vec<Option<Vec<u8>>>>,
    ) -> (result: Option<PgResult>)
        ensures
            result is Some <==> (column_names.len() == column_types.len() && forall|r: int|
                0 <= r < rows.len() ==> #[trigger] rows[r].len() == column_types.len()),
            result matches Some(res) ==> {
                &&& res@.column_names == column_names@.map_values(
                    |n: Option<String>| name_view(n),
                )
                &&& res@.column_types == column_types@
                &&& res@.rows == rows@.map_values(|row: Vec<Option<Vec<u8>>>| row_view(row))
            },
    {
        if column_names.len() != column_types.len() {
            return None;
        }
        let mut i: usize = 0;
        while i < rows.len()
            invariant
                i <= rows.len(),
                forall|r: int| 0 <= r < i ==> #[trigger] rows[r].len() == column_types.len(),
            decreases rows.len() - i,
        {
            if rows[i].len() != column_types.len() {
                return None;
            }
            i = i + 1;
        }
        Some(PgResult { column_names, column_types, rows })
    }

    /// Number of rows in the result.
    pub fn num_rows(&self) -> (n: usize)
        ensures
            n == self@.rows.len(),
            self@.well_formed(),
    {
        proof {
            use_type_invariant(self);
            self.lemma_view_well_formed();
        }
        self.rows.len()
    }

    /// Number of columns in the result.
    pub fn column_count(&self) -> (n: usize)
        ensures
            n == self@.column_count(),
            self@.well_formed(),
    {
        proof {
            use_type_invariant(self);
            self.lemma_view_well_formed();
        }
        self.column_types.len()
    }

    /// The name of column `col_idx`: `None` past the last column or where
    /// the column has no name.
    pub fn column_name(&self, col_idx: usize) -> (name: Option<&str>)
        ensures
            col_idx >= self@.column_count() ==> name is None,
            col_idx < self@.column_count() ==> match name {
                Some(n) => self@.column_names[col_idx as int] == Some(n@),
                None => self@.column_names[col_idx as int] is None,
            },
    {
        proof {
            use_type_invariant(self);
        }
        if col_idx >= self.column_names.len() {
            return None;
        }
        assert(self@.column_names[col_idx as int] == name_view(self.column_names[col_idx as int]));
        match &self.column_names[col_idx] {
            Some(n) => Some(n.as_str()),
            None => None,
        }
    }

    /// The type of column `col_idx`.
    pub fn column_type(&self, col_idx: usize) -> (oid: Oid)
        requires
            col_idx < self@.column_count(),
        ensures
            oid == self@.column_types[col_idx as int],
    {
        self.column_types[col_idx]
    }

    /// The bytes of the cell in row `row_idx` and column `col_idx`, `None`
    /// for `NULL`.
    pub fn get(&self, row_idx: usize, col_idx: usize) -> (cell: Option<&[u8]>)
        requires
            row_idx < self@.rows.len(),
            col_idx < self@.column_count(),
        ensures
            match cell {
                Some(bytes) => self@.rows[row_idx as int][col_idx as int] == Some(bytes@),
                None => self@.rows[row_idx as int][col_idx as int] is None,
            },
    {
        proof {
            use_type_invariant(self);
            assert(self.rows[row_idx as int].len() == self.column_types.len());
            assert(self@.rows[row_idx as int] == row_view(self.rows[row_idx as int]));
        }
        match &self.rows[row_idx][col_idx] {
            Some(bytes) => Some(bytes.as_slice()),
            None => None,
        }
    }
}

} // verus!
