//! Scopes object storage to one database.
//!
//! Every object of a database lives below a root address that is derived from
//! the identifier of the server and the name of the database. This crate
//! computes that root, translates between addresses in the store and paths
//! relative to the root, and says which request a backend has to carry out
//! for each operation on the database's objects. It performs no I/O itself.

pub mod decimal;
pub mod error;
pub mod laws;
pub mod path;
pub mod relative;
pub mod request;
pub mod root;
pub mod segments;
pub mod store;

pub use crate::error::Error;
pub use crate::path::PathAddress;
pub use crate::relative::{RelativePath, Transaction};
pub use crate::request::Request;
pub use crate::root::RootPath;
pub use crate::store::IoxObjectStore;
