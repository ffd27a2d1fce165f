//! The view that one database has of an object store.

use crate::decimal::decimal;
use crate::error::Error;
use crate::path::{PathAddress, PathAddressView};
use crate::relative::{RelativePath, Transaction};
use crate::request::{Request, RequestView};
use crate::root::{root_of, RootPath};
use vstd::prelude::*;

verus! {

/// The directory below a database's root that holds its data files.
pub open spec fn data_directory() -> Seq<char> {
    seq!['d', 'a', 't', 'a']
}

/// The directory below a database's root that holds the transaction files of
/// its catalog.
pub open spec fn transactions_directory() -> Seq<char> {
    seq!['t', 'r', 'a', 'n', 's', 'a', 'c', 't', 'i', 'o', 'n', 's']
}

/// What a database's view of a store is made of.
pub struct IoxObjectStoreView {
    pub server_id: u32,
    pub database_name: Seq<char>,
    pub root: PathAddressView,
}

impl IoxObjectStoreView {
    /// The root is the one that the server's identifier and the database's
    /// name define.
    pub open spec fn wf(self) -> bool {
        self.root == root_of(self.server_id, self.database_name)
    }

    /// Where the database's data files go.
    pub open spec fn data_path(self) -> PathAddressView {
        self.root.push_dir(data_directory())
    }

    /// Where the transaction files of the database's catalog go.
    pub open spec fn catalog_path(self) -> PathAddressView {
        self.root.push_dir(transactions_directory())
    }

    /// The address below which a listing looks: that of `prefix` within the
    /// database, or the database's root where no prefix is given.
    pub open spec fn listed_below(self, prefix: Option<Seq<Seq<char>>>) -> PathAddressView {
        match prefix {
            Some(path) => self.root.join(path),
            None => self.root,
        }
    }
}

/// Handles the storage of one database: it turns every operation on a path
/// of the database into a request at an address below the database's root,
/// and every listed address back into a path of the database.
#[derive(Debug)]
pub struct IoxObjectStore {
    server_id: u32,
    database_name: String,
    root_path: RootPath,
}

impl View for IoxObjectStore {
    type V = IoxObjectStoreView;

    closed spec fn view(&self) -> IoxObjectStoreView {
        IoxObjectStoreView {
            server_id: self.server_id,
            database_name: self.database_name@,
            root: self.root_path@,
        }
    }
}

impl IoxObjectStore {
    /// The root never changes: it stays the one that the identifier and the
    /// name define.
    #[verifier::type_invariant]
    pub open spec fn wf(&self) -> bool {
        self@.wf()
    }

    /// The storage scope of the database `database_name` on the server
    /// `server_id`.
    pub fn new(server_id: u32, database_name: &str) -> (store: Self)
        ensures
            store@.server_id == server_id,
            store@.database_name == database_name@,
            store@.root == root_of(server_id, database_name@),
    {
        let root_path = RootPath::new(PathAddress::new(), server_id, database_name);
        IoxObjectStore { server_id, database_name: database_name.to_owned(), root_path }
    }

    /// The identifier of the server that the database belongs to.
    pub fn server_id(&self) -> (server_id: u32)
        ensures
            server_id == self@.server_id,
    {
        self.server_id
    }

    /// The name of the database this object store is for.
    pub fn database_name(&self) -> (database_name: &str)
        ensures
            database_name@ == self@.database_name,
    {
        self.database_name.as_str()
    }

    /// The root below which all objects of the database lie.
    pub fn root_path(&self) -> (root_path: &RootPath)
        ensures
            root_path@ == self@.root,
            root_path@ == root_of(self@.server_id, self@.database_name),
    {
        proof {
            use_type_invariant(self);
        }
        &self.root_path
    }

    /// Location where the data files go: the directory `data` below the
    /// server's identifier and the database's name.
    pub fn data_path(&self) -> (path: PathAddress)
        ensures
            path@ == self@.data_path(),
            path@.directories == seq![
                decimal(self@.server_id as nat),
                self@.database_name,
                data_directory(),
            ],
            path@.file_name is None,
    {
        proof {
            use_type_invariant(self);
            reveal_strlit("data");
        }
        let mut path: PathAddress = self.root_path.address().clone();
        path.push_dir("data");
        assert("data"@ =~= data_directory());
        assert(path@.directories =~= seq![
            decimal(self@.server_id as nat),
            self@.database_name,
            data_directory(),
        ]);
        path
    }

    /// Location where the transaction files of the catalog go: the directory
    /// `transactions` below the server's identifier and the database's name.
    pub fn catalog_path(&self) -> (path: PathAddress)
        ensures
            path@ == self@.catalog_path(),
            path@.directories == seq![
                decimal(self@.server_id as nat),
                self@.database_name,
                transactions_directory(),
            ],
            path@.file_name is None,
    {
        proof {
            use_type_invariant(self);
            reveal_strlit("transactions");
        }
        let mut path: PathAddress = self.root_path.address().clone();
        path.push_dir("transactions");
        assert("transactions"@ =~= transactions_directory());
        assert(path@.directories =~= seq![
            decimal(self@.server_id as nat),
            self@.database_name,
            transactions_directory(),
        ]);
        path
    }

    /// The request that stores the caller's bytes at `location` in this
    /// database. `length` is handed on as it is.
    pub fn put(&self, location: &RelativePath, length: Option<usize>) -> (request: Request)
        ensures
            request@ == (RequestView::Put { path: self@.root.join(location@), length }),
    {
        Request::Put { path: self.root_path.join(location), length }
    }

    /// The request that reads the object at `location` in this database.
    pub fn get(&self, location: &RelativePath) -> (request: Request)
        ensures
            request@ == (RequestView::Get { path: self@.root.join(location@) }),
    {
        Request::Get { path: self.root_path.join(location) }
    }

    /// The request that deletes the object at `location` in this database.
    pub fn delete(&self, location: &RelativePath) -> (request: Request)
        ensures
            request@ == (RequestView::Delete { path: self@.root.join(location@) }),
    {
        Request::Delete { path: self.root_path.join(location) }
    }

    /// The request that lists the objects of this database below `prefix`,
    /// or all of them where no prefix is given.
    pub fn list(&self, prefix: Option<&RelativePath>) -> (request: Request)
        ensures
            request@ == (RequestView::List {
                prefix: self@.listed_below(
                    match prefix {
                        Some(path) => Some(path@),
                        None => None,
                    },
                ),
            }),
    {
        match prefix {
            Some(path) => Request::List { prefix: self.root_path.join(path) },
            None => Request::List { prefix: self.root_path.address().clone() },
        }
    }

    /// The request that lists all the transaction files of this database's
    /// catalog: the listing below the one-segment path `transactions`.
    pub fn catalog_transactions(&self) -> (request: Request)
        ensures
            request@ == (RequestView::List {
                prefix: self@.listed_below(Some(seq![transactions_directory()])),
            }),
            request@.address().segments() == self@.catalog_path().segments(),
    {
        proof {
            use_type_invariant(self);
            reveal_strlit("transactions");
        }
        let mut parts: Vec<String> = Vec::new();
        parts.push("transactions".to_owned());
        let prefix = RelativePath::new(parts);
        assert("transactions"@ =~= transactions_directory());
        assert(prefix@ =~= seq![transactions_directory()]);
        let request = self.list(Some(&prefix));
        assert(request@.address().segments() =~= self@.catalog_path().segments());
        request
    }

    /// Turns one batch of addresses that the backend listed into paths of
    /// this database, in the order in which they came. An address that does
    /// not lie below the database's root fails the whole batch.
    pub fn list_batch(&self, batch: &Vec<PathAddress>) -> (result: Result<Vec<RelativePath>, Error>)
        ensures
            result is Ok == (forall|i: int|
                0 <= i < batch.len() ==> (#[trigger] batch[i])@.starts_with(self@.root)),
            result matches Ok(paths) ==> {
                &&& paths.len() == batch.len()
                &&& forall|i: int|
                    0 <= i < batch.len() ==> (#[trigger] paths[i])@ == batch[i]@.after(self@.root)
            },
            result matches Err(error) ==> error == Error::ScopeViolation,
    {
        let mut paths: Vec<RelativePath> = Vec::new();
        let mut i: usize = 0;
        while i < batch.len()
            invariant
                i <= batch.len(),
                paths.len() == i,
                forall|j: int| 0 <= j < i ==> (#[trigger] batch[j])@.starts_with(self@.root),
                forall|j: int| 0 <= j < i ==> (#[trigger] paths[j])@ == batch[j]@.after(self@.root),
            decreases batch.len() - i,
        {
            match self.root_path.try_relative(&batch[i]) {
                Some(path) => {
                    paths.push(path);
                },
                None => {
                    return Err(Error::ScopeViolation);
                },
            }
            i += 1;
        }
        Ok(paths)
    }

    /// Turns one batch of addresses that the backend listed below the
    /// catalog's directory into transaction files, in the order in which
    /// they came. An address that does not lie below the database's root
    /// fails the whole batch.
    pub fn catalog_transactions_batch(&self, batch: &Vec<PathAddress>) -> (result: Result<
        Vec<Transaction>,
        Error,
    >)
        ensures
            result is Ok == (forall|i: int|
                0 <= i < batch.len() ==> (#[trigger] batch[i])@.starts_with(self@.root)),
            result matches Ok(transactions) ==> {
                &&& transactions.len() == batch.len()
                &&& forall|i: int|
                    0 <= i < batch.len() ==> (#[trigger] transactions[i])@ == batch[i]@.after(
                        self@.root,
                    )
            },
            result matches Err(error) ==> error == Error::ScopeViolation,
    {
        let mut transactions: Vec<Transaction> = Vec::new();
        let mut i: usize = 0;
        while i < batch.len()
            invariant
                i <= batch.len(),
                transactions.len() == i,
                forall|j: int| 0 <= j < i ==> (#[trigger] batch[j])@.starts_with(self@.root),
                forall|j: int|
                    0 <= j < i ==> (#[trigger] transactions[j])@ == batch[j]@.after(self@.root),
            decreases batch.len() - i,
        {
            match self.root_path.try_relative(&batch[i]) {
                Some(path) => {
                    transactions.push(Transaction::new(path));
                },
                None => {
                    return Err(Error::ScopeViolation);
                },
            }
            i += 1;
        }
        Ok(transactions)
    }
}

impl Clone for IoxObjectStore {
    fn clone(&self) -> (copy: Self)
        ensures
            copy@ == self@,
    {
        proof {
            use_type_invariant(self);
        }
        IoxObjectStore {
            server_id: self.server_id,
            database_name: self.database_name.clone(),
            root_path: self.root_path.clone(),
        }
    }
}

} // verus!
