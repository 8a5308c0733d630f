use vstd::prelude::*;
use crate::value::Value;

verus! {

/// Every way in which a query can fail.
#[derive(Debug)]
pub enum Error {
    /// The transport failed.
    ConnectionError(String),
    /// The client was configured with a base URI that does not parse.
    ConfigurationError(String),
    /// The query did not finish within the configured timeout.
    TimeoutError,
    Other,
    /// The service refused the secret.
    Unauthorized,
    /// The service sent no readable body where one was expected.
    EmptyResponse,
    /// The service rejected the query (status 400).
    BadRequest(FaunaErrors),
    /// The query names something that does not exist (status 404).
    NotFound(FaunaErrors),
    RequestDataFailure(String),
    /// A response, or a part of one, does not have the expected shape.
    ResponseDataFailure(String),
    /// Any other status: the text of the body.
    DatabaseError(String),
    /// A value is not of the requested kind.
    ConversionError(String),
}

/// The errors that the service reports for a rejected query.
#[derive(Debug)]
pub struct FaunaErrors {
    pub errors: Vec<FaunaError>,
}

/// One error reported by the service: where in the query, a code and a
/// description.
#[derive(Debug)]
pub struct FaunaError {
    pub position: Vec<Value>,
    pub code: String,
    pub description: String,
}

} // verus!
