//! The errors that the service answers a request with.
use vstd::prelude::*;

verus! {

/// The class of an error, as the protocol's error codes tell them apart.
#[derive(Clone, Copy, Debug, PartialEq, Eq, Structural)]
pub enum ErrorKind {
    /// The request itself is not acceptable (here: its credentials).
    InvalidRequest,
    /// An argument of a tool call is missing or malformed.
    InvalidParams,
    /// The service or the upstream API failed.
    InternalError,
    /// No resource answers to the requested URI.
    ResourceNotFound,
}

/// An error with its class and the message shown to the client.
#[derive(Debug)]
pub struct ServiceError {
    pub kind: ErrorKind,
    pub message: String,
}

impl ServiceError {
    /// This error is of class `kind` with message `message`.
    pub open spec fn is(self, kind: ErrorKind, message: Seq<char>) -> bool {
        self.kind == kind && self.message@ == message
    }

    pub fn invalid_request(message: String) -> (e: ServiceError)
        ensures
            e.is(ErrorKind::InvalidRequest, message@),
    {
        ServiceError { kind: ErrorKind::InvalidRequest, message }
    }

    pub fn invalid_params(message: String) -> (e: ServiceError)
        ensures
            e.is(ErrorKind::InvalidParams, message@),
    {
        ServiceError { kind: ErrorKind::InvalidParams, message }
    }

    pub fn internal_error(message: String) -> (e: ServiceError)
        ensures
            e.is(ErrorKind::InternalError, message@),
    {
        ServiceError { kind: ErrorKind::InternalError, message }
    }

    pub fn resource_not_found(message: String) -> (e: ServiceError)
        ensures
            e.is(ErrorKind::ResourceNotFound, message@),
    {
        ServiceError { kind: ErrorKind::ResourceNotFound, message }
    }
}

} // verus!
