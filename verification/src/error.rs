//! Errors that loading rows can end in.
use vstd::prelude::*;

verus! {

/// An error reported while loading rows.
#[derive(Clone, Debug, PartialEq, Eq)]
pub enum Error {
    /// The database refused or failed the request, with its message.
    DatabaseError(String),
}

/// The result of loading something.
pub type QueryResult<T> = Result<T, Error>;

} // verus!
