//! Errors of the layers around the domain: storage, the HTTP interface,
//! shared plumbing and the web client.

use vstd::prelude::*;
use crate::errors::DomainError;

verus! {

/// A failure of the store.
#[derive(Debug, PartialEq)]
pub enum DbError {
    Connection(String),
    Query(String),
    Migration(String),
}

/// A failure of a request to the HTTP interface.
#[derive(Debug, PartialEq)]
pub enum ApiError {
    Unauthorized,
    Forbidden,
    NotFound,
    BadRequest(String),
}

/// Any failure of the server.
#[derive(Debug, PartialEq)]
pub enum BackendError {
    Database(DbError),
    Domain(DomainError),
    Api(ApiError),
    ExternalService(String),
}

/// A failure of code shared by server and client.
#[derive(Debug, PartialEq)]
pub enum SharedError {
    Validation { field: String, message: String },
    Serialization(String),
    Configuration(String),
    NotFound { entity: String, id: String },
}

/// A failure of the web client.
#[derive(Debug, PartialEq)]
pub enum FrontendError {
    Network(String),
    Render(String),
    State(String),
    Validation(String),
}

impl BackendError {
    /// A domain failure, as the server reports it.
    pub fn from_domain(e: DomainError) -> (r: BackendError)
        ensures
            r == BackendError::Domain(e),
    {
        BackendError::Domain(e)
    }

    /// A store failure, as the server reports it.
    pub fn from_db(e: DbError) -> (r: BackendError)
        ensures
            r == BackendError::Database(e),
    {
        BackendError::Database(e)
    }

    /// A request failure, as the server reports it.
    pub fn from_api(e: ApiError) -> (r: BackendError)
        ensures
            r == BackendError::Api(e),
    {
        BackendError::Api(e)
    }
}

} // verus!
