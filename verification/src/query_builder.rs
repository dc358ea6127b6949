//! Turning query pieces into SQL text.
use crate::error::QueryResult;
use vstd::prelude::*;

verus! {

/// The SQL text built so far while walking a query.
pub struct AstPass {
    sql: String,
}

impl AstPass {
    /// The SQL text written so far.
    pub closed spec fn sql_text(&self) -> Seq<char> {
        self.sql@
    }

    /// A pass that has written nothing yet.
    pub fn new() -> (pass: Self)
        ensures
            pass.sql_text() == Seq::<char>::empty(),
    {
        AstPass { sql: String::new() }
    }

    /// Appends `sql` to the text.
    pub fn push_sql(&mut self, sql: &str)
        ensures
            final(self).sql_text() == old(self).sql_text() + sql@,
    {
        self.sql.append(sql);
    }

    /// The text written.
    pub fn into_sql(self) -> (sql: String)
        ensures
            sql@ == self.sql_text(),
    {
        self.sql
    }
}

/// A piece of a query that writes itself as SQL.
pub trait QueryFragment {
    /// The SQL text the piece writes.
    spec fn sql(&self) -> Seq<char>;

    /// Whether writing the piece succeeds, and the error if it does not.
    spec fn walk_outcome(&self) -> QueryResult<()>;

    /// Writes the piece at the end of `pass`.
    fn walk_ast(&self, pass: &mut AstPass) -> (res: QueryResult<()>)
        ensures
            res == self.walk_outcome(),
            res is Ok ==> final(pass).sql_text() == old(pass).sql_text() + self.sql(),
    ;
}

/// The select clause of a query that selects nothing in particular.
///
/// It writes `1`: nothing can be loaded from it, but
/// `EXISTS (SELECT 1 FROM table WHERE something)` comes out right.
#[derive(Debug, Copy, Clone)]
pub struct SelectClauseNotSet;

impl SelectClauseNotSet {
    /// The clause is the same under any alias of its table.
    pub fn map<S>(self, alias: &S) -> (mapped: SelectClauseNotSet)
        ensures
            mapped == self,
    {
        self
    }
}

impl QueryFragment for SelectClauseNotSet {
    open spec fn sql(&self) -> Seq<char> {
        "1"@
    }

    open spec fn walk_outcome(&self) -> QueryResult<()> {
        Ok(())
    }

    fn walk_ast(&self, pass: &mut AstPass) -> (res: QueryResult<()>)
        ensures
            res is Ok,
    {
        pass.push_sql("1");
        Ok(())
    }
}

} // verus!
