//! What a backend is asked to do.

use crate::error::Error;
use crate::path::{PathAddress, PathAddressView};
use vstd::prelude::*;

verus! {

/// What a request is, over the views of its addresses.
pub enum RequestView {
    Put { path: PathAddressView, length: Option<usize> },
    Get { path: PathAddressView },
    List { prefix: PathAddressView },
    Delete { path: PathAddressView },
}

impl RequestView {
    /// The address that the request is about.
    pub open spec fn address(self) -> PathAddressView {
        match self {
            RequestView::Put { path, .. } => path,
            RequestView::Get { path } => path,
            RequestView::List { prefix } => prefix,
            RequestView::Delete { path } => path,
        }
    }

    /// Whether a request that failed with `failure` counts as done all the
    /// same. That is so for one failure alone: a delete that found no
    /// object, since deleting what is not there is no error.
    pub open spec fn tolerates(self, failure: Error) -> bool {
        self is Delete && failure == Error::NotFound
    }

    /// What the caller is told when the backend answered with `outcome`:
    /// the same, unless the failure is one that the request tolerates.
    pub open spec fn settle(self, outcome: Result<(), Error>) -> Result<(), Error> {
        match outcome {
            Ok(()) => Ok(()),
            Err(failure) => if self.tolerates(failure) {
                Ok(())
            } else {
                Err(failure)
            },
        }
    }
}

/// One operation for the backend to carry out, at an address in the store.
#[derive(Debug, PartialEq, Eq)]
pub enum Request {
    /// Write the caller's bytes at `path`; `length` is the caller's hint of
    /// how many bytes there are.
    Put { path: PathAddress, length: Option<usize> },
    /// Read the object at `path`.
    Get { path: PathAddress },
    /// List every object below `prefix`.
    List { prefix: PathAddress },
    /// Delete the object at `path`.
    Delete { path: PathAddress },
}

impl View for Request {
    type V = RequestView;

    open spec fn view(&self) -> RequestView {
        match *self {
            Request::Put { path, length } => RequestView::Put { path: path@, length },
            Request::Get { path } => RequestView::Get { path: path@ },
            Request::List { prefix } => RequestView::List { prefix: prefix@ },
            Request::Delete { path } => RequestView::Delete { path: path@ },
        }
    }
}

impl Request {
    /// The address that the request is about.
    pub fn address(&self) -> (address: &PathAddress)
        ensures
            address@ == self@.address(),
    {
        match self {
            Request::Put { path, .. } => path,
            Request::Get { path } => path,
            Request::List { prefix } => prefix,
            Request::Delete { path } => path,
        }
    }

    /// Whether this request counts as done although the backend failed with
    /// `failure`.
    pub fn tolerates(&self, failure: Error) -> (tolerated: bool)
        ensures
            tolerated == self@.tolerates(failure),
    {
        match self {
            Request::Delete { .. } => failure == Error::NotFound,
            _ => false,
        }
    }

    /// What the caller is told when the backend answered this request with
    /// `outcome`. Every failure is passed on as it came, but for the one that
    /// the request tolerates.
    pub fn settle(&self, outcome: Result<(), Error>) -> (result: Result<(), Error>)
        ensures
            result == self@.settle(outcome),
    {
        match outcome {
            Ok(()) => Ok(()),
            Err(failure) => if self.tolerates(failure) {
                Ok(())
            } else {
                Err(failure)
            },
        }
    }
}

} // verus!
