//! The error kinds the registry surfaces. Every error aborts the whole
//! operation: a failed call leaves the registry exactly as it was.

use vstd::prelude::*;

verus! {

/// Why an operation was rejected.
#[derive(Clone, Copy, Debug, PartialEq, Eq, Structural)]
pub enum CustomError {
    /// The target handle is already occupied, so the store cannot
    /// allocate a fresh record there.
    AllocationError,
    /// A referenced handle does not resolve to a record.
    NotFoundError,
    /// The invoker's identity does not match the required authority.
    AuthorizationError,
    /// The ticket was already checked in; `scanned` is one-way.
    AlreadyScannedError,
    /// The metadata target is malformed, has the wrong owner, or
    /// already holds data: attachment is create-only, never overwrite.
    ValidationError,
}

impl CustomError {
    /// The description of each error kind, as a sequence of characters.
    pub open spec fn spec_describe(self) -> Seq<char> {
        match self {
            CustomError::AllocationError => "target handle is already occupied"@,
            CustomError::NotFoundError => "referenced handle does not resolve"@,
            CustomError::AuthorizationError => "invoker is not the required authority"@,
            CustomError::AlreadyScannedError => "ticket has already been scanned"@,
            CustomError::ValidationError => "metadata target is invalid or not empty"@,
        }
    }

    /// A short description, for callers that print errors.
    pub fn describe(&self) -> (r: &'static str)
        ensures
            r@ == self.spec_describe(),
    {
        match self {
            CustomError::AllocationError => "target handle is already occupied",
            CustomError::NotFoundError => "referenced handle does not resolve",
            CustomError::AuthorizationError => "invoker is not the required authority",
            CustomError::AlreadyScannedError => "ticket has already been scanned",
            CustomError::ValidationError => "metadata target is invalid or not empty",
        }
    }
}

} // verus!
