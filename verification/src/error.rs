//! The kinds of failure that an operation on a database's objects can end in.

use vstd::prelude::*;

verus! {

/// Why an operation failed.
#[derive(Debug, Clone, Copy, PartialEq, Eq, Structural)]
pub enum Error {
    /// No object exists at the address asked for.
    NotFound,
    /// The backend failed for any other reason: connectivity, permission,
    /// capacity. Nothing is retried here.
    StorageFailure,
    /// The backend listed an address that does not lie below the root of the
    /// database. This is a fault of the backend or of its configuration, and
    /// is never reported as an absent object.
    ScopeViolation,
}

} // verus!
