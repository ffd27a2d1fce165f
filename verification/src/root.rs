//! The root of a database's storage scope.

use crate::decimal::{decimal, render_decimal};
use crate::path::{PathAddress, PathAddressView};
use crate::relative::RelativePath;
use vstd::prelude::*;

verus! {

/// The root address of the database `database_name` on the server
/// `server_id`: the server's identifier in decimal, then the database's name,
/// as the only two directories.
pub open spec fn root_of(server_id: u32, database_name: Seq<char>) -> PathAddressView {
    PathAddressView::empty().push_dir(decimal(server_id as nat)).push_dir(database_name)
}

/// The address below which all objects of one database lie. It converts
/// between paths relative to the database and addresses in the store.
#[derive(Debug)]
pub struct RootPath {
    root: PathAddress,
}

impl View for RootPath {
    type V = PathAddressView;

    closed spec fn view(&self) -> PathAddressView {
        self.root@
    }
}

impl RootPath {
    /// A root is a directory: its address ends in no file name.
    #[verifier::type_invariant]
    pub open spec fn wf(&self) -> bool {
        self@.file_name is None
    }

    /// How the root of a database is defined in object storage: below the
    /// empty address `root` of the store comes the server's identifier, and
    /// below that the database's name.
    pub fn new(root: PathAddress, server_id: u32, database_name: &str) -> (scope: Self)
        requires
            root@ == PathAddressView::empty(),
        ensures
            scope@ == root_of(server_id, database_name@),
            scope.wf(),
    {
        let mut root = root;
        root.push_dir(render_decimal(server_id).as_str());
        root.push_dir(database_name);
        RootPath { root }
    }

    /// The address in the store of the path `relative` of this database: the
    /// root's directories, then every segment of `relative` as a directory.
    pub fn join(&self, relative: &RelativePath) -> (path: PathAddress)
        ensures
            path@ == self@.join(relative@),
    {
        let parts = relative.parts();
        let mut path: PathAddress = self.root.clone();
        let mut i: usize = 0;
        assert(path@ =~= self@.join(relative@.take(0)));
        while i < parts.len()
            invariant
                i <= parts.len(),
                parts@.len() == relative@.len(),
                forall|j: int| 0 <= j < parts.len() ==> parts@[j]@ == relative@[j],
                path@ == self@.join(relative@.take(i as int)),
            decreases parts.len() - i,
        {
            path.push_dir(parts[i].as_str());
            assert(path@ =~= self@.join(relative@.take(i + 1)));
            i += 1;
        }
        assert(relative@.take(parts.len() as int) =~= relative@);
        path
    }

    /// The path within this database of `address`, if `address` lies at or
    /// below this root; `None` if it lies elsewhere in the store.
    pub fn try_relative(&self, address: &PathAddress) -> (relative: Option<RelativePath>)
        ensures
            relative is Some == address@.starts_with(self@),
            relative matches Some(path) ==> path@ == address@.after(self@),
    {
        match address.parts_after_prefix(&self.root) {
            Some(parts) => Some(RelativePath::new(parts)),
            None => None,
        }
    }

    /// The address of this root.
    pub fn address(&self) -> (address: &PathAddress)
        ensures
            address@ == self@,
    {
        &self.root
    }

    /// The path within this database of the address `full_path`: its
    /// segments after those of the root. The address has to lie at or below
    /// this root.
    pub fn relative(&self, full_path: PathAddress) -> (relative: RelativePath)
        requires
            full_path@.starts_with(self@),
        ensures
            relative@ == full_path@.after(self@),
    {
        RelativePath::new(full_path.parts_after_prefix(&self.root).unwrap())
    }
}

impl Clone for RootPath {
    fn clone(&self) -> (copy: Self)
        ensures
            copy@ == self@,
    {
        proof {
            use_type_invariant(self);
        }
        RootPath { root: self.root.clone() }
    }
}

} // verus!
