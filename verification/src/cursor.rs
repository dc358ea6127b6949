//! Cursors that hand out the rows of query results one by one.
use crate::error::{Error, QueryResult};
use crate::result::{PgResult, PgResultView};
use crate::row::PgRow;
use crate::value::PgMetadataLookupNonMut;
use std::rc::Rc;
use vstd::prelude::*;

verus! {

/// `item` hands out row `index` of `result`, read through the connection
/// whose metadata lookup is `conn`.
pub open spec fn yields_row<'conn, M: PgMetadataLookupNonMut>(
    item: Option<QueryResult<PgRow<'conn, M>>>,
    result: PgResultView,
    conn: M,
    index: nat,
) -> bool {
    match item {
        Some(Ok(row)) => row.result() == result && row.connection() == conn && row.row_index()
            == index,
        _ => false,
    }
}

/// Where a cursor over `len` rows stands after one call of `next` from
/// position `pos`: one row further on, unless every row is out.
pub open spec fn position_after_next(len: nat, pos: nat) -> nat {
    if pos < len {
        pos + 1
    } else {
        pos
    }
}

/// Where a cursor over `len` rows stands after `k` calls of `next` from
/// position `pos`.
pub open spec fn position_after_nexts(len: nat, pos: nat, k: nat) -> nat
    decreases k,
{
    if k == 0 {
        pos
    } else {
        position_after_next(len, position_after_nexts(len, pos, (k - 1) as nat))
    }
}

/// `k` calls of `next` move a cursor `k` rows on, or to the end if fewer
/// rows are left.
pub proof fn lemma_position_after_nexts(len: nat, pos: nat, k: nat)
    requires
        pos <= len,
    ensures
        position_after_nexts(len, pos, k) == if pos + k <= len {
            pos + k
        } else {
            len
        },
    decreases k,
{
    if k > 0 {
        lemma_position_after_nexts(len, pos, (k - 1) as nat);
    }
}

/// Calls of `next` on a fresh cursor hand out the rows in order: before call
/// `k` (counting from 0) the cursor stands at row `k` while there is one,
/// so call `k` hands out row `k`, and every call after the last row hands
/// out nothing.
pub proof fn lemma_rows_come_in_order(len: nat, k: nat)
    ensures
        k < len ==> position_after_nexts(len, 0, k) == k,
        k >= len ==> position_after_nexts(len, 0, k) == len,
{
    lemma_position_after_nexts(len, 0, k);
}

/// `nth(n)` does what `n + 1` calls of `next` do: it ends where they end,
/// and it hands out the row that the last of them hands out, the row the
/// cursor stands at after `n` calls.
pub proof fn lemma_nth_is_repeated_next(len: nat, pos: nat, n: nat)
    requires
        pos <= len,
    ensures
        position_after_nexts(len, pos, n + 1) == if pos + n < len {
            pos + n + 1
        } else {
            len
        },
        pos + n < len ==> position_after_nexts(len, pos, n) == pos + n,
        pos + n >= len ==> position_after_nexts(len, pos, n) == len,
{
    lemma_position_after_nexts(len, pos, n);
    lemma_position_after_nexts(len, pos, n + 1);
}

/// The rows a cursor has left are those of its result not yet handed
/// out: with the ones before its position, they make up all rows.
pub proof fn lemma_remaining_counts_rows_left<'conn, M: PgMetadataLookupNonMut>(
    cursor: Cursor<'conn, M>,
)
    requires
        cursor.position() <= cursor.result().rows.len(),
    ensures
        cursor.remaining() + cursor.position() == cursor.result().rows.len(),
{
}

/// A cursor over all rows of one result, loaded at once.
pub struct Cursor<'conn, M: PgMetadataLookupNonMut> {
    current_row: usize,
    inner: Rc<PgResult>,
    conn: &'conn M,
}

impl<'conn, M: PgMetadataLookupNonMut> Cursor<'conn, M> {
    #[verifier::type_invariant]
    spec fn in_bounds(self) -> bool {
        self.current_row <= self.inner@.rows.len()
    }

    /// The result the cursor walks over.
    pub closed spec fn result(&self) -> PgResultView {
        self.inner@
    }

    /// The lookup of type metadata of the connection the rows come from.
    pub closed spec fn connection(&self) -> M {
        *self.conn
    }

    /// The position of the next row the cursor hands out.
    pub closed spec fn position(&self) -> nat {
        self.current_row as nat
    }

    /// The number of rows the cursor has not handed out yet.
    pub open spec fn remaining(&self) -> nat {
        (self.result().rows.len() - self.position()) as nat
    }

    /// A cursor at the first row of `result`, whose values look up type
    /// metadata through `conn`.
    pub fn new(conn: &'conn M, result: PgResult) -> (cursor: Self)
        ensures
            cursor.result() == result@,
            cursor.connection() == *conn,
            cursor.position() == 0,
    {
        Cursor { current_row: 0, inner: Rc::new(result), conn }
    }

    /// The number of rows left.
    pub fn len(&self) -> (n: usize)
        ensures
            n == self.remaining(),
            n + self.position() == self.result().rows.len(),
            self.position() <= self.result().rows.len(),
    {
        proof {
            use_type_invariant(self);
        }
        self.inner.num_rows() - self.current_row
    }

    /// The next row, or `None` once every row has been handed out.
    pub fn next(&mut self) -> (item: Option<QueryResult<PgRow<'conn, M>>>)
        ensures
            final(self).result() == old(self).result(),
            final(self).connection() == old(self).connection(),
            final(self).position() == position_after_next(
                old(self).result().rows.len(),
                old(self).position(),
            ),
            old(self).position() < old(self).result().rows.len() ==> {
                &&& yields_row(item, old(self).result(), old(self).connection(), old(self).position())
                &&& final(self).position() == old(self).position() + 1
            },
            old(self).position() >= old(self).result().rows.len() ==> {
                &&& item is None
                &&& final(self).position() == old(self).position()
            },
    {
        proof {
            use_type_invariant(&*self);
        }
        if self.current_row < self.inner.num_rows() {
            let row = PgRow::new(self.inner.clone(), self.conn, self.current_row);
            self.current_row = self.current_row + 1;
            Some(Ok(row))
        } else {
            None
        }
    }

    /// Skips `n` rows, or all that are left if there are fewer, and hands
    /// out the row after them.
    pub fn nth(&mut self, n: usize) -> (item: Option<QueryResult<PgRow<'conn, M>>>)
        ensures
            final(self).result() == old(self).result(),
            final(self).connection() == old(self).connection(),
            final(self).position() == position_after_nexts(
                old(self).result().rows.len(),
                old(self).position(),
                (n + 1) as nat,
            ),
            old(self).position() + n < old(self).result().rows.len() ==> {
                &&& yields_row(
                    item,
                    old(self).result(),
                    old(self).connection(),
                    (old(self).position() + n) as nat,
                )
                &&& final(self).position() == old(self).position() + n + 1
            },
            old(self).position() + n >= old(self).result().rows.len() ==> {
                &&& item is None
                &&& final(self).position() == old(self).result().rows.len()
            },
    {
        proof {
            use_type_invariant(&*self);
            lemma_nth_is_repeated_next(self.inner@.rows.len(), self.current_row as nat, n as nat);
        }
        let num_rows = self.inner.num_rows();
        if n >= num_rows - self.current_row {
            self.current_row = num_rows;
        } else {
            self.current_row = self.current_row + n;
        }
        self.next()
    }

    /// The bounds on the number of rows left: both exactly `len`.
    pub fn size_hint(&self) -> (hint: (usize, Option<usize>))
        ensures
            hint.0 == self.remaining(),
            hint.0 + self.position() == self.result().rows.len(),
            hint.1 == Some(hint.0),
    {
        let len = self.len();
        (len, Some(len))
    }

    /// The number of rows left, consuming the cursor.
    pub fn count(self) -> (n: usize)
        ensures
            n == self.remaining(),
            n + self.position() == self.result().rows.len(),
    {
        self.len()
    }
}

/// A cursor over the rows of a query whose rows the database sends one
/// result at a time: each result holds one row, and an empty result ends the
/// rows.
///
/// Fetching the next result is left to the caller: before each call of
/// [`RowByRowCursor::next`], when [`RowByRowCursor::needs_next_result`] says so,
/// the caller asks the connection for the next result and passes what it got.
pub struct RowByRowCursor<'conn, M: PgMetadataLookupNonMut> {
    first_row: bool,
    inner: Rc<PgResult>,
    conn: &'conn M,
}

impl<'conn, M: PgMetadataLookupNonMut> RowByRowCursor<'conn, M> {
    /// The result the cursor holds now.
    pub closed spec fn result(&self) -> PgResultView {
        self.inner@
    }

    /// The lookup of type metadata of the connection the rows come from.
    pub closed spec fn connection(&self) -> M {
        *self.conn
    }

    /// Whether no row has been handed out yet.
    pub closed spec fn is_first_row(&self) -> bool {
        self.first_row
    }

    /// A cursor that starts on `result`, the first result of the query,
    /// and whose values look up type metadata through `conn`.
    pub fn new(conn: &'conn M, result: PgResult) -> (cursor: Self)
        ensures
            cursor.result() == result@,
            cursor.connection() == *conn,
            cursor.is_first_row(),
    {
        RowByRowCursor { first_row: true, inner: Rc::new(result), conn }
    }

    /// Whether the next call of `next` needs the next result of the query.
    pub fn needs_next_result(&self) -> (needed: bool)
        ensures
            needed == !self.is_first_row(),
    {
        !self.first_row
    }

    /// Hands out the row of the current result, if it has one.
    fn current_row(&mut self) -> (item: Option<QueryResult<PgRow<'conn, M>>>)
        ensures
            final(self).result() == old(self).result(),
            final(self).connection() == old(self).connection(),
            old(self).result().rows.len() > 0 ==> {
                &&& yields_row(item, old(self).result(), old(self).connection(), 0)
                &&& !final(self).is_first_row()
            },
            old(self).result().rows.len() == 0 ==> {
                &&& item is None
                &&& final(self).is_first_row() == old(self).is_first_row()
            },
    {
        if self.inner.num_rows() > 0 {
            self.first_row = false;
            Some(Ok(PgRow::new(self.inner.clone(), self.conn, 0)))
        } else {
            None
        }
    }

    /// The next row. Except before the first row, `fetched` is what the
    /// connection answered when asked for the next result: a failure, the
    /// end of the results, or the next result.
    pub fn next(&mut self, fetched: Option<QueryResult<Option<PgResult>>>) -> (item: Option<
        QueryResult<PgRow<'conn, M>>,
    >)
        requires
            !old(self).is_first_row() ==> fetched is Some,
        ensures
            final(self).connection() == old(self).connection(),
            old(self).is_first_row() ==> step_on_result(
                old(self).result(),
                old(self).connection(),
                old(self).is_first_row(),
                item,
                final(self).result(),
                final(self).is_first_row(),
            ),
            !old(self).is_first_row() ==> match fetched {
                Some(Err(e)) => {
                    &&& item == Some(Err::<PgRow<'conn, M>, Error>(e))
                    &&& final(self).result() == old(self).result()
                    &&& final(self).is_first_row() == old(self).is_first_row()
                },
                Some(Ok(None)) => {
                    &&& item is None
                    &&& final(self).result() == old(self).result()
                    &&& final(self).is_first_row() == old(self).is_first_row()
                },
                Some(Ok(Some(res))) => step_on_result(
                    res@,
                    old(self).connection(),
                    old(self).is_first_row(),
                    item,
                    final(self).result(),
                    final(self).is_first_row(),
                ),
                None => false,
            },
    {
        if !self.first_row {
            match fetched {
                Some(Ok(Some(res))) => {
                    self.inner = Rc::new(res);
                },
                Some(Ok(None)) => {
                    return None;
                },
                Some(Err(e)) => {
                    return Some(Err(e));
                },
                None => {
                    return None;
                },
            }
        }
        self.current_row()
    }

    /// Whether dropping the cursor has to go on asking for results after
    /// the connection answered `fetched`: only while results keep coming.
    pub fn keep_draining(fetched: &QueryResult<Option<PgResult>>) -> (more: bool)
        ensures
            more == (fetched matches Ok(Some(_))),
    {
        match fetched {
            Ok(Some(_)) => true,
            _ => false,
        }
    }
}

/// What the row-by-row cursor does with the result it holds: hand out its
/// row, if it has one, and remember that a row has been handed out.
pub open spec fn step_on_result<'conn, M: PgMetadataLookupNonMut>(
    result: PgResultView,
    conn: M,
    was_first_row: bool,
    item: Option<QueryResult<PgRow<'conn, M>>>,
    new_result: PgResultView,
    is_first_row: bool,
) -> bool {
    &&& new_result == result
    &&& result.rows.len() > 0 ==> yields_row(item, result, conn, 0) && !is_first_row
    &&& result.rows.len() == 0 ==> item is None && is_first_row == was_first_row
}

/// The cells of the rows that a row-by-row cursor hands out when the
/// connection answers with `results` in turn, as a model of the contract of
/// [`RowByRowCursor::next`] (see [`step_on_result`]): row 0 of each result,
/// up to the first result without rows.
pub open spec fn row_by_row_cells(results: Seq<PgResultView>) -> Seq<Seq<Option<Seq<u8>>>>
    decreases results.len(),
{
    if results.len() == 0 || results[0].rows.len() == 0 {
        Seq::empty()
    } else {
        seq![results[0].rows[0]] + row_by_row_cells(results.drop_first())
    }
}

/// Loading a query row by row gives the same rows as loading it at once,
/// stated over the model [`row_by_row_cells`] rather than over calls of
/// the cursors: when the database sends each row of `full` as a result of
/// its own, in order, and then an empty result, the modelled row-by-row
/// cells are the rows of `full`, which a [`Cursor`] hands out in that order
/// (see [`lemma_rows_come_in_order`]).
pub proof fn lemma_loading_modes_agree(full: PgResultView, results: Seq<PgResultView>)
    requires
        results.len() == full.rows.len() + 1,
        forall|i: int| 0 <= i < full.rows.len() ==> #[trigger] results[i].rows == seq![full.rows[i]],
        results[full.rows.len() as int].rows.len() == 0,
    ensures
        row_by_row_cells(results) == full.rows,
    decreases full.rows.len(),
{
    if full.rows.len() == 0 {
        assert(row_by_row_cells(results) =~= full.rows);
    } else {
        let rest = PgResultView { rows: full.rows.drop_first(), ..full };
        let later = results.drop_first();
        assert forall|i: int| 0 <= i < rest.rows.len() implies #[trigger] later[i].rows == seq![
            rest.rows[i],
        ] by {
            assert(results[i + 1].rows == seq![full.rows[i + 1]]);
        }
        lemma_loading_modes_agree(rest, later);
        assert(results[0].rows == seq![full.rows[0]]);
        assert(row_by_row_cells(results) =~= full.rows);
    }
}

/// Loading a query row by row hands out rows with the same cells as loading
/// it at once, stated over what the calls hand out by their contracts.
///
/// `by_default` holds what calls `0..=n` of [`Cursor::next`] on a fresh
/// cursor over `full` hand out (by its contract and
/// [`lemma_rows_come_in_order`], call `k` hands out row `k`, and call `n`
/// nothing). `row_by_row` holds what the calls of [`RowByRowCursor::next`]
/// hand out on the results `results[k]` that the connection sends: each
/// row of `full` as a result of its own, then an empty result; `first`
/// holds whether the cursor had handed out no row before each call.
pub proof fn lemma_loading_modes_hand_out_same_cells<'c, M: PgMetadataLookupNonMut>(
    full: PgResultView,
    conn: M,
    results: Seq<PgResultView>,
    first: Seq<bool>,
    by_default: Seq<Option<QueryResult<PgRow<'c, M>>>>,
    row_by_row: Seq<Option<QueryResult<PgRow<'c, M>>>>,
)
    requires
        results.len() == full.rows.len() + 1,
        forall|i: int| 0 <= i < full.rows.len() ==> #[trigger] results[i].rows == seq![full.rows[i]],
        results[full.rows.len() as int].rows.len() == 0,
        by_default.len() == full.rows.len() + 1,
        row_by_row.len() == full.rows.len() + 1,
        first.len() == full.rows.len() + 2,
        forall|k: int|
            0 <= k < full.rows.len() ==> yields_row(#[trigger] by_default[k], full, conn, k as nat),
        by_default[full.rows.len() as int] is None,
        forall|k: int|
            0 <= k <= full.rows.len() ==> step_on_result(
                results[k],
                conn,
                first[k],
                #[trigger] row_by_row[k],
                results[k],
                first[k + 1],
            ),
    ensures
        forall|k: int|
            0 <= k < full.rows.len() ==> {
                &&& #[trigger] by_default[k] matches Some(Ok(a))
                &&& row_by_row[k] matches Some(Ok(b))
                &&& a.cells() == b.cells()
                &&& a.cells() == full.rows[k]
            },
        by_default[full.rows.len() as int] is None,
        row_by_row[full.rows.len() as int] is None,
{
    assert forall|k: int| 0 <= k < full.rows.len() implies {
        &&& #[trigger] by_default[k] matches Some(Ok(a))
        &&& row_by_row[k] matches Some(Ok(b))
        &&& a.cells() == b.cells()
        &&& a.cells() == full.rows[k]
    } by {
        assert(results[k].rows == seq![full.rows[k]]);
        assert(yields_row(by_default[k], full, conn, k as nat));
        assert(step_on_result(results[k], conn, first[k], row_by_row[k], results[k], first[k + 1]));
    }
    let n = full.rows.len() as int;
    assert(step_on_result(results[n], conn, first[n], row_by_row[n], results[n], first[n + 1]));
}

} // verus!
