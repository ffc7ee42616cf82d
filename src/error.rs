use vstd::prelude::*;

verus! {

/// What can go wrong when items are looked up.
#[derive(Debug, PartialEq, Eq)]
pub enum Error {
    /// A link or an object URL that does not have the expected shape.
    Format(String),
    /// A key that names no item.
    NotFound(String),
    /// Reading or copying a file failed.
    Io(String),
    /// A query against the database failed.
    Query(String),
}

} // verus!
