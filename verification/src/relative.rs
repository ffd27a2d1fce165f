//! Paths inside the storage scope of one database.

use crate::segments::{copy_segments, names, same_segments};
use vstd::prelude::*;

verus! {

/// A path within the storage scope of a database: a list of segments that has
/// a meaning only below the root of that database. It never holds the root
/// itself, and has to be joined to a root to give an address in the store.
#[derive(Debug)]
pub struct RelativePath {
    parts: Vec<String>,
}

impl View for RelativePath {
    type V = Seq<Seq<char>>;

    closed spec fn view(&self) -> Seq<Seq<char>> {
        names(self.parts@)
    }
}

impl RelativePath {
    /// The relative path with the segments `parts`, in their order.
    pub fn new(parts: Vec<String>) -> (path: Self)
        ensures
            path@ == names(parts@),
    {
        RelativePath { parts }
    }

    /// The segments of this path, in their order.
    pub fn parts(&self) -> (parts: &Vec<String>)
        ensures
            names(parts@) == self@,
    {
        &self.parts
    }
}

impl Clone for RelativePath {
    fn clone(&self) -> (copy: Self)
        ensures
            copy@ == self@,
    {
        RelativePath { parts: copy_segments(&self.parts) }
    }
}

/// Two relative paths are equal when they hold the same segments in the same
/// order.
impl PartialEq for RelativePath {
    fn eq(&self, other: &Self) -> (same: bool) {
        same_segments(&self.parts, &other.parts)
    }
}

impl vstd::std_specs::cmp::PartialEqSpecImpl for RelativePath {
    open spec fn obeys_eq_spec() -> bool {
        true
    }

    open spec fn eq_spec(&self, other: &Self) -> bool {
        self@ == other@
    }
}

impl Eq for RelativePath {

}

/// A file of the catalog's transaction log, named by its path within the
/// database's storage scope.
#[derive(Debug)]
pub struct Transaction {
    relative_path: RelativePath,
}

impl View for Transaction {
    type V = Seq<Seq<char>>;

    closed spec fn view(&self) -> Seq<Seq<char>> {
        self.relative_path@
    }
}

impl Transaction {
    /// The transaction file at `relative_path`.
    pub fn new(relative_path: RelativePath) -> (transaction: Self)
        ensures
            transaction@ == relative_path@,
    {
        Transaction { relative_path }
    }

    /// Where the transaction file lies within the database's storage scope.
    pub fn relative_path(&self) -> (relative_path: &RelativePath)
        ensures
            relative_path@ == self@,
    {
        &self.relative_path
    }
}

impl Clone for Transaction {
    fn clone(&self) -> (copy: Self)
        ensures
            copy@ == self@,
    {
        Transaction { relative_path: self.relative_path.clone() }
    }
}

impl PartialEq for Transaction {
    fn eq(&self, other: &Self) -> (same: bool) {
        self.relative_path.eq(&other.relative_path)
    }
}

impl vstd::std_specs::cmp::PartialEqSpecImpl for Transaction {
    open spec fn obeys_eq_spec() -> bool {
        true
    }

    open spec fn eq_spec(&self, other: &Self) -> bool {
        self@ == other@
    }
}

impl Eq for Transaction {

}

} // verus!
