//! The error type that the services and handlers report.

use vstd::prelude::*;

verus! {

/// An error of a service or handler, with the message shown to the client.
#[derive(Debug, Clone, PartialEq, Eq)]
pub enum ServiceError {
    /// A required integration is not configured
    Config(String),
    /// The addressed record does not exist
    NotFound(String),
    /// The request is malformed or asks for something impossible
    BadRequest(String),
    /// The requester may not do this
    Forbidden(String),
    /// The request collides with existing state
    Conflict(String),
    /// A database operation failed
    Database(String),
    /// Any other failure
    Unknown(String),
}

} // verus!
