//! The outcomes, other than success, of an operation on the store.

use vstd::prelude::*;

verus! {

/// Why an operation on the store did not take effect. A failed operation
/// leaves the store as it was.
#[derive(Clone, Copy, Debug, PartialEq, Eq, Structural)]
pub enum RepoError {
    /// The record the operation names does not exist.
    NotFound,
    /// The record would duplicate a key that must be unique.
    Conflict,
    /// The request breaks a rule on its own values (a negative quantity, a
    /// movement amount below one).
    ValidationFailure,
    /// An outgoing movement asks for more than is on hand.
    InsufficientStock,
    /// The result does not fit the integer type that stores it.
    OutOfRange,
    /// A request names a vehicle that does not exist.
    UnknownCar,
    /// A request names a customer that does not exist.
    UnknownCustomer,
}

impl RepoError {
    /// A short description, fit for a response to a client.
    pub fn message(&self) -> (r: &'static str) {
        match self {
            RepoError::NotFound => "not found",
            RepoError::Conflict => "already exists",
            RepoError::ValidationFailure => "invalid request",
            RepoError::InsufficientStock => "insufficient stock",
            RepoError::OutOfRange => "value out of range",
            RepoError::UnknownCar => "car not found",
            RepoError::UnknownCustomer => "customer not found",
        }
    }
}

} // verus!
