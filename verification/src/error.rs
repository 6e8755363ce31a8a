//! Per-request error kinds and their mapping to the HTTP error contract:
//! every store or projection failure becomes a uniform `500` response with
//! a fixed, non-leaking body.

use vstd::prelude::*;

verus! {

/// A failure reaching or querying the backing store (connection refused,
/// malformed query, timeout). `detail` carries the store client's own text
/// for logging; it never reaches an HTTP client.
pub struct StoreError {
    pub detail: String,
}

/// A failure projecting a stored row into a render-ready view.
#[derive(Clone, Copy, PartialEq, Eq, Structural, Debug)]
pub enum ProjectionError {
    /// The stored state string lies outside `{draft, published, trashed}`:
    /// a data-integrity fault, kept distinguishable from a store failure so
    /// that operators can tell "database is down" from "database has
    /// corrupt data".
    InvalidState,
}

/// The per-request error: either the store failed or a row failed to
/// project. Migration failures are fatal at process startup and never reach
/// request handling, so they have no variant here.
pub enum Error {
    Database(StoreError),
    Projection(ProjectionError),
}

/// A plain HTTP response: status code, content type and body.
pub struct HttpResponse {
    pub status: u16,
    pub content_type: String,
    pub body: String,
}

/// The uniform error contract: status `500`, a fixed body that leaks no
/// internal error detail, served as plain text.
pub open spec fn is_db_error_response(r: HttpResponse) -> bool {
    &&& r.status == 500u16
    &&& r.content_type@ == "text/plain"@
    &&& r.body@ == "an error has occurred while interacting with the database"@
}

/// Builds the uniform error response.
pub fn db_error_response() -> (r: HttpResponse)
    ensures
        is_db_error_response(r),
{
    HttpResponse {
        status: 500,
        content_type: String::from_str("text/plain"),
        body: String::from_str("an error has occurred while interacting with the database"),
    }
}

impl Error {
    /// Maps any per-request error to the HTTP error contract. No error kind
    /// is ever forwarded to the client: the response is the same fixed
    /// `500` whichever variant occurred.
    pub fn into_response(self) -> (r: HttpResponse)
        ensures
            is_db_error_response(r),
    {
        match self {
            Error::Database(_) => db_error_response(),
            Error::Projection(_) => db_error_response(),
        }
    }
}

} // verus!
