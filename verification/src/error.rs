//! What can go wrong between the broker and the store.

use vstd::prelude::*;

verus! {

/// Status answered when a request succeeded.
pub const OK: u16 = 200;

/// Status answered when something was created.
pub const CREATED: u16 = 201;

/// Status answered when the caller is not who the request needs.
pub const UNAUTHORIZED: u16 = 401;

/// Status answered when what was asked for does not exist.
pub const NOT_FOUND: u16 = 404;

/// Status answered when what should be created exists already.
pub const CONFLICT: u16 = 409;

/// Status answered when the store failed or held something unexpected.
pub const INTERNAL_SERVER_ERROR: u16 = 500;

/// Why a field could not be read from a document.
#[derive(Debug, Clone, Copy, PartialEq, Eq, Structural)]
pub enum ValueAccessError {
    /// The document has no such field.
    NotPresent,
    /// The field holds something other than what was asked for.
    UnexpectedType,
}

/// A failure on the way to or from the store.
#[derive(Debug, Clone, Copy, PartialEq, Eq, Structural)]
pub enum SharedTierListError {
    /// A document lacked a field, or held the wrong kind of value in it.
    MongoValueAccess(ValueAccessError),
    /// The store itself failed.
    MongoError,
    /// The request is to be answered with this status.
    StatusCodeError(u16),
}

impl SharedTierListError {
    /// The status with which a request that ran into this failure is
    /// answered: its own where it names one, else that of a failed store.
    pub open spec fn spec_status(self) -> u16 {
        match self {
            SharedTierListError::StatusCodeError(status) => status,
            _ => INTERNAL_SERVER_ERROR,
        }
    }

    /// The status with which a request that ran into this failure is
    /// answered.
    pub fn status(&self) -> (status: u16)
        ensures
            status == self.spec_status(),
    {
        match self {
            SharedTierListError::StatusCodeError(status) => *status,
            _ => INTERNAL_SERVER_ERROR,
        }
    }
}

} // verus!
