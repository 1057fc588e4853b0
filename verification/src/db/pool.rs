//! Read-only access to the store, distinct from the writer.
//!
//! The pool remembers the database file; the application opens a fresh
//! read-only connection to it per use.

use vstd::prelude::*;

use crate::errors::Error;

verus! {

/// Cheap to clone: it holds the database path.
pub struct ReadPool {
    path: String,
}

impl Clone for ReadPool {
    /// A pool on the same database file.
    fn clone(&self) -> (r: ReadPool)
        ensures
            r.path_view() == self.path_view(),
    {
        ReadPool { path: self.path.clone() }
    }
}

impl ReadPool {
    /// The database file this pool reads from.
    pub closed spec fn path_view(&self) -> Seq<char> {
        self.path@
    }

    /// Builds a pool on `path` from the outcome of opening a read-only
    /// connection to it. `_capacity` is reserved for a bounded ring of
    /// handles; a fresh connection is opened per use for now.
    pub fn new(path: String, _capacity: usize, opened: Result<(), Error>) -> (r: Result<
        ReadPool,
        Error,
    >)
        ensures
            match r {
                Ok(p) => opened is Ok && p.path_view() == path@,
                Err(e) => opened == Err::<(), Error>(e),
            },
    {
        match opened {
            Ok(()) => Ok(ReadPool { path }),
            Err(e) => Err(e),
        }
    }

    /// The database file this pool reads from.
    pub fn path(&self) -> (r: &str)
        ensures
            r@ == self.path_view(),
    {
        self.path.as_str()
    }
}

} // verus!
