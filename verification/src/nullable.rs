//! An expression seen as possibly `NULL`.
use crate::error::QueryResult;
use crate::query_builder::{AstPass, QueryFragment};
use vstd::prelude::*;

verus! {

/// The expression `T`, typed as nullable. Its SQL is that of `T`.
#[derive(Debug, Copy, Clone)]
pub struct Nullable<T>(pub T);

impl<T> Nullable<T> {
    pub fn new(expr: T) -> (nullable: Self)
        ensures
            nullable.0 == expr,
    {
        Nullable(expr)
    }
}

impl<T: QueryFragment> QueryFragment for Nullable<T> {
    open spec fn sql(&self) -> Seq<char> {
        self.0.sql()
    }

    open spec fn walk_outcome(&self) -> QueryResult<()> {
        self.0.walk_outcome()
    }

    fn walk_ast(&self, pass: &mut AstPass) -> (res: QueryResult<()>) {
        self.0.walk_ast(pass)
    }
}

/// Marking an expression nullable does not change the SQL it writes, nor
/// whether writing it succeeds.
pub proof fn lemma_nullable_writes_inner_sql<T: QueryFragment>(expr: T)
    ensures
        Nullable(expr).sql() == expr.sql(),
        Nullable(expr).walk_outcome() == expr.walk_outcome(),
{
}

} // verus!
