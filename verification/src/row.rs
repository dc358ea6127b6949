//! One row of a query result, and the fields in it.
use crate::result::{PgResult, PgResultView};
use crate::value::{Oid, PgMetadataLookupNonMut, PgValue, TypeOidLookup};
use std::ops::Range;
use std::rc::Rc;
use vstd::prelude::*;

verus! {

/// Equality of two string slices, by their characters: the slices are
/// compared byte by byte, and UTF-8 encodes equal characters, and only
/// those, as equal bytes.
fn str_eq(a: &str, b: &str) -> (equal: bool)
    ensures
        equal == (a@ == b@),
{
    let x = a.as_bytes();
    let y = b.as_bytes();
    proof {
        vstd::utf8::encode_utf8_decode_utf8(a@);
        vstd::utf8::encode_utf8_decode_utf8(b@);
        assert(x@ == vstd::utf8::encode_utf8(a@));
        assert(y@ == vstd::utf8::encode_utf8(b@));
    }
    if x.len() != y.len() {
        return false;
    }
    let mut i: usize = 0;
    while i < x.len()
        invariant
            x@ == vstd::utf8::encode_utf8(a@),
            y@ == vstd::utf8::encode_utf8(b@),
            x@.len() == y@.len(),
            i <= x@.len(),
            forall|j: int| 0 <= j < i ==> x@[j] == y@[j],
        decreases x@.len() - i,
    {
        if x[i] != y[i] {
            return false;
        }
        i = i + 1;
    }
    assert(x@ =~= y@);
    true
}

/// Something made of a fixed number of fields.
pub trait Row {
    /// The number of fields.
    spec fn field_total(&self) -> nat;

    /// The number of fields.
    fn field_count(&self) -> (n: usize)
        ensures
            n == self.field_total(),
    ;
}

/// A way of naming a field of a row: by its position, or by its name.
pub trait RowIndex<I>: Row {
    /// The position of the field that `idx` names, if any.
    spec fn index_of(&self, idx: I) -> Option<usize>;

    /// The position of the field that `idx` names, if any.
    fn idx(&self, idx: I) -> (pos: Option<usize>)
        ensures
            pos == self.index_of(idx),
            pos matches Some(p) ==> p < self.field_total(),
    ;
}

/// The first column that carries the name `name`, if any.
pub open spec fn first_column_named(names: Seq<Option<Seq<char>>>, name: Seq<char>) -> Option<
    usize,
> {
    if exists|i: int| 0 <= i < names.len() && names[i] == Some(name) {
        let i = choose|i: int|
            0 <= i < names.len() && names[i] == Some(name) && forall|j: int|
                0 <= j < i ==> names[j] != Some(name);
        Some(i as usize)
    } else {
        None
    }
}

/// What [`first_column_named`] finds: the first column with that name, or
/// `None` where no column has it.
pub proof fn lemma_first_column_named(names: Seq<Option<Seq<char>>>, name: Seq<char>)
    requires
        names.len() <= usize::MAX,
    ensures
        match first_column_named(names, name) {
            Some(i) => {
                &&& i < names.len()
                &&& names[i as int] == Some(name)
                &&& forall|j: int| 0 <= j < i ==> names[j] != Some(name)
            },
            None => forall|j: int| 0 <= j < names.len() ==> names[j] != Some(name),
        },
{
    if exists|i: int| 0 <= i < names.len() && names[i] == Some(name) {
        let w = choose|i: int| 0 <= i < names.len() && names[i] == Some(name);
        lemma_first_match_exists(names, name, w);
    }
}

/// Where some column has the name, there is a first one.
proof fn lemma_first_match_exists(names: Seq<Option<Seq<char>>>, name: Seq<char>, w: int)
    requires
        0 <= w < names.len(),
        names[w] == Some(name),
    ensures
        exists|i: int|
            0 <= i < names.len() && names[i] == Some(name) && forall|j: int|
                0 <= j < i ==> names[j] != Some(name),
    decreases w,
{
    if exists|j: int| 0 <= j < w && names[j] == Some(name) {
        let v = choose|j: int| 0 <= j < w && names[j] == Some(name);
        lemma_first_match_exists(names, name, v);
    } else {
        assert(forall|j: int| 0 <= j < w ==> names[j] != Some(name));
    }
}

/// One row of a query result, read from a connection.
pub struct PgRow<'conn, M: PgMetadataLookupNonMut> {
    pg_result: Rc<PgResult>,
    conn: &'conn M,
    row_idx: usize,
}

impl<'conn, M: PgMetadataLookupNonMut> PgRow<'conn, M> {
    #[verifier::type_invariant]
    spec fn in_bounds(self) -> bool {
        self.row_idx < self.pg_result@.rows.len()
    }

    /// The result that the row belongs to.
    pub closed spec fn result(&self) -> PgResultView {
        self.pg_result@
    }

    /// The position of the row in its result.
    pub closed spec fn row_index(&self) -> nat {
        self.row_idx as nat
    }

    /// The lookup of type metadata of the connection the row was read from.
    pub closed spec fn connection(&self) -> M {
        *self.conn
    }

    /// The cells of the row.
    pub open spec fn cells(&self) -> Seq<Option<Seq<u8>>> {
        self.result().rows[self.row_index() as int]
    }

    pub(crate) fn new(
        pg_result: Rc<PgResult>,
        conn: &'conn M,
        row_idx: usize,
    ) -> (row: Self)
        requires
            row_idx < pg_result@.rows.len(),
        ensures
            row.result() == pg_result@,
            row.row_index() == row_idx,
            row.connection() == *conn,
    {
        PgRow { pg_result, conn, row_idx }
    }

    /// The field that `idx` names, if the row has one.
    pub fn get<'b, I>(&'b self, idx: I) -> (field: Option<PgField<'b, M>>) where Self: RowIndex<I>
        ensures
            self.result().well_formed(),
            self.row_index() < self.result().rows.len(),
            match field {
                Some(f) => {
                    &&& self.index_of(idx) matches Some(i) && f.column_index() == i
                    &&& f.column_index() < self.field_total()
                    &&& f.row_index() == self.row_index()
                    &&& f.result() == self.result()
                    &&& f.connection() == self.connection()
                },
                None => self.index_of(idx) is None,
            },
    {
        proof {
            use_type_invariant(self);
        }
        let _ = self.pg_result.column_count();
        let col_idx = match self.idx(idx) {
            Some(i) => i,
            None => return None,
        };
        Some(
            PgField {
                pg_result: &*self.pg_result,
                conn: self.conn,
                row_idx: self.row_idx,
                col_idx,
            },
        )
    }

    /// The fields of this row in `range`, seen as a row of their own.
    pub fn partial_row(&self, range: Range<usize>) -> (part: PartialRow<'_, PgRow<'conn, M>>)
        ensures
            part.inner() == *self,
            part.range() == range,
    {
        PartialRow::new(self, range)
    }
}

impl<'conn, M: PgMetadataLookupNonMut> Row for PgRow<'conn, M> {
    open spec fn field_total(&self) -> nat {
        self.result().column_count()
    }

    fn field_count(&self) -> (n: usize)
        ensures
            n == self.result().column_types.len(),
            self.result().well_formed(),
    {
        self.pg_result.column_count()
    }
}

impl<'conn, M: PgMetadataLookupNonMut> RowIndex<usize> for PgRow<'conn, M> {
    open spec fn index_of(&self, idx: usize) -> Option<usize> {
        if idx < self.field_total() {
            Some(idx)
        } else {
            None
        }
    }

    fn idx(&self, idx: usize) -> (pos: Option<usize>)
        ensures
            idx < self.result().column_types.len() ==> pos == Some(idx),
            idx >= self.result().column_types.len() ==> pos is None,
    {
        if idx < self.field_count() {
            Some(idx)
        } else {
            None
        }
    }
}

impl<'a, 'conn, M: PgMetadataLookupNonMut> RowIndex<&'a str> for PgRow<'conn, M> {
    open spec fn index_of(&self, idx: &'a str) -> Option<usize> {
        first_column_named(self.result().column_names, idx@)
    }

    fn idx(&self, field_name: &'a str) -> (pos: Option<usize>)
        ensures
            self.result().well_formed(),
            match pos {
                Some(i) => {
                    &&& self.result().column_names[i as int] == Some(field_name@)
                    &&& forall|j: int|
                        0 <= j < i ==> self.result().column_names[j] != Some(field_name@)
                },
                None => forall|j: int|
                    0 <= j < self.field_total() ==> self.result().column_names[j] != Some(
                        field_name@,
                    ),
            },
    {
        let count = self.pg_result.column_count();
        let ghost names = self.result().column_names;
        let mut i: usize = 0;
        while i < count
            invariant
                i <= count,
                count == self.field_total(),
                names == self.result().column_names,
                names.len() == count,
                self.result().well_formed(),
                forall|j: int| 0 <= j < i ==> names[j] != Some(field_name@),
            decreases count - i,
        {
            let found = match self.pg_result.column_name(i) {
                Some(n) => str_eq(n, field_name),
                None => false,
            };
            if found {
                assert(names[i as int] == Some(field_name@));
                return Some(i);
            }
            i = i + 1;
        }
        None
    }
}

/// A part of a row: the fields of `inner` in `range`.
pub struct PartialRow<'a, R> {
    inner: &'a R,
    range: Range<usize>,
}

impl<'a, R> PartialRow<'a, R> {
    pub closed spec fn inner(&self) -> R {
        *self.inner
    }

    pub closed spec fn range(&self) -> Range<usize> {
        self.range
    }

    pub fn new(inner: &'a R, range: Range<usize>) -> (part: Self)
        ensures
            part.inner() == *inner,
            part.range() == range,
    {
        PartialRow { inner, range }
    }
}

/// One field of one row of a query result.
pub struct PgField<'a, M: PgMetadataLookupNonMut> {
    pg_result: &'a PgResult,
    conn: &'a M,
    row_idx: usize,
    col_idx: usize,
}

impl<'a, M: PgMetadataLookupNonMut> PgField<'a, M> {
    #[verifier::type_invariant]
    spec fn in_bounds(self) -> bool {
        &&& self.row_idx < self.pg_result@.rows.len()
        &&& self.col_idx < self.pg_result@.column_count()
    }

    /// The result that the field belongs to.
    pub closed spec fn result(&self) -> PgResultView {
        self.pg_result@
    }

    /// The row of the field in its result.
    pub closed spec fn row_index(&self) -> nat {
        self.row_idx as nat
    }

    /// The column of the field in its result.
    pub closed spec fn column_index(&self) -> nat {
        self.col_idx as nat
    }

    /// The lookup of type metadata of the connection the field was read
    /// from.
    pub closed spec fn connection(&self) -> M {
        *self.conn
    }

    /// The name of the field's column, if it has one.
    pub fn field_name(&self) -> (name: Option<&str>)
        ensures
            match name {
                Some(n) => self.result().column_names[self.column_index() as int] == Some(n@),
                None => self.result().column_names[self.column_index() as int] is None,
            },
    {
        proof {
            use_type_invariant(self);
        }
        self.pg_result.column_name(self.col_idx)
    }

    /// The raw value of the field; `None` for SQL `NULL`.
    pub fn value(&self) -> (value: Option<PgValue<'_, PgField<'a, M>, M>>)
        ensures
            match value {
                Some(v) => {
                    &&& self.result().rows[self.row_index() as int][self.column_index() as int]
                        == Some(v.bytes())
                    &&& v.oid_source() == *self
                    &&& v.metadata_source() == self.connection()
                },
                None => self.result().rows[self.row_index() as int][self.column_index() as int] is None,
            },
    {
        proof {
            use_type_invariant(self);
        }
        let raw = match self.pg_result.get(self.row_idx, self.col_idx) {
            Some(raw) => raw,
            None => return None,
        };
        Some(PgValue::new_internal(raw, self, self.conn))
    }
}

impl<'a, M: PgMetadataLookupNonMut> TypeOidLookup for PgField<'a, M> {
    open spec fn lookup_ready(&self) -> bool {
        true
    }

    open spec fn yields_oid(&self, oid: Oid) -> bool {
        oid == self.result().column_types[self.column_index() as int]
    }

    fn lookup(&self) -> (oid: Oid)
        ensures
            oid == self.result().column_types[self.column_index() as int],
    {
        proof {
            use_type_invariant(self);
        }
        self.pg_result.column_type(self.col_idx)
    }
}

/// Naming a field by its name finds the first column whose name is exactly
/// that name, and nothing where no column has it.
pub proof fn lemma_name_names_first_such_column<'a, 'conn, M: PgMetadataLookupNonMut>(
    row: PgRow<'conn, M>,
    name: &'a str,
)
    requires
        row.result().column_names.len() <= usize::MAX,
    ensures
        match <PgRow<'conn, M> as RowIndex<&'a str>>::index_of(&row, name) {
            Some(i) => {
                &&& i < row.result().column_names.len()
                &&& row.result().column_names[i as int] == Some(name@)
                &&& forall|j: int| 0 <= j < i ==> row.result().column_names[j] != Some(name@)
            },
            None => forall|j: int|
                0 <= j < row.result().column_names.len() ==> row.result().column_names[j] != Some(
                    name@,
                ),
        },
{
    lemma_first_column_named(row.result().column_names, name@);
}

/// A row has one field per column of its result.
pub proof fn lemma_row_has_a_field_per_column<'conn, M: PgMetadataLookupNonMut>(
    row: PgRow<'conn, M>,
)
    ensures
        row.field_total() == row.result().column_types.len(),
{
}

/// Naming a field by its position finds that position exactly when the row
/// has that many columns, and nothing past the last column: `get(i)` and
/// `idx(i)` on a row with `n` columns give column `i` for every `i < n`.
pub proof fn lemma_position_names_that_column<'conn, M: PgMetadataLookupNonMut>(
    row: PgRow<'conn, M>,
    i: usize,
)
    ensures
        i < row.result().column_types.len() ==> <PgRow<'conn, M> as RowIndex<usize>>::index_of(
            &row,
            i,
        ) == Some(i),
        i >= row.result().column_types.len() ==> <PgRow<'conn, M> as RowIndex<
            usize,
        >>::index_of(&row, i) is None,
{
}

/// The oids a field's lookup may yield: exactly the type of the field's
/// own column, so that a field's lookup, and the oid of its value, is the
/// type that the result gives that column.
pub proof fn lemma_field_yields_its_column_type<'a, M: PgMetadataLookupNonMut>(
    field: PgField<'a, M>,
    oid: Oid,
)
    ensures
        field.lookup_ready(),
        field.yields_oid(oid) <==> oid == field.result().column_types[field.column_index() as int],
{
}

} // verus!
