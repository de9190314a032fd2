//! The recovery mapper: the single terminal stage that turns any failure
//! surfaced during request processing into a wire-level status and message,
//! and renders the full-detail diagnostic line that is handed to the
//! observability sink before the response crosses the trust boundary.

use vstd::prelude::*;
use vstd::string::StringExecFns;

use crate::error::{
    classify_db_error, error_text, spec_classify, APILayerError, DbError, Error,
    StorageErrorClass, api_layer_error_text,
};

verus! {

/// A failure found at the transport boundary: either one of the library's
/// own failure kinds, a disallowed cross-origin request, a malformed request
/// body, or no match at all.
#[derive(Debug)]
pub enum Rejection {
    /// One of the closed taxonomy's failure kinds.
    Failure(Error),
    /// A disallowed cross-origin request; payload is the boundary's message.
    CorsForbidden(String),
    /// A malformed request body; payload is the boundary's message.
    BodyDeserializeError(String),
    /// No route or resource matched the request.
    RouteNotFound,
}

/// The status and message every failure maps to. Storage failures render one
/// of two fixed texts — the duplicate-key one when the provider code is the
/// canonical unique-violation code — and remote-dependency failures render
/// one fixed generic text: no provider internals ever reach the caller.
pub open spec fn spec_return_error(r: Rejection) -> (int, Seq<char>) {
    match r {
        Rejection::Failure(e) => match e {
            Error::DatabaseQueryError(db) => if spec_classify(db@.code)
                == StorageErrorClass::DuplicateKey {
                (422int, "Account already exists"@)
            } else {
                (422int, "Cannot update data"@)
            },
            Error::ReqwestAPIError(_) => (500int, "Internal Server Error"@),
            Error::MiddlewareReqwestAPIError(_) => (500int, "Internal Server Error"@),
            Error::ClientError(_) => (500int, "Internal Server Error"@),
            Error::ServerError(_) => (500int, "Internal Server Error"@),
            Error::WrongPassword => (401int, "Wrong E-mail/Password combination"@),
            Error::ArgonLibraryError(_) => (401int, "Wrong E-mail/Password combination"@),
            Error::Unauthorized => (401int, "No permitted to change underlying resource"@),
            _ => (422int, error_text(e)),
        },
        Rejection::CorsForbidden(m) => (403int, m@),
        Rejection::BodyDeserializeError(m) => (422int, m@),
        Rejection::RouteNotFound => (404int, "Route not found"@),
    }
}

/// The full-detail line handed to the observability sink for each failure:
/// recovery never discards diagnostic information, it only restricts what
/// crosses the trust boundary.
pub open spec fn spec_diagnostic(r: Rejection) -> Seq<char> {
    match r {
        Rejection::Failure(e) => match e {
            Error::DatabaseQueryError(_) => "Database query error"@,
            Error::ReqwestAPIError(m) => m@,
            Error::MiddlewareReqwestAPIError(m) => m@,
            Error::ClientError(a) => api_layer_error_text(a@),
            Error::ServerError(a) => api_layer_error_text(a@),
            Error::WrongPassword => "Entered wrong password"@,
            Error::ArgonLibraryError(m) => m@,
            Error::Unauthorized => "Not matching account id"@,
            _ => error_text(e),
        },
        Rejection::CorsForbidden(m) => "CORS forbidden error: "@ + m@,
        Rejection::BodyDeserializeError(m) => "Cannot deserialize request body: "@ + m@,
        Rejection::RouteNotFound => "Requested route was not found"@,
    }
}

/// Maps any failure to its wire-level status and message, exactly as
/// `spec_return_error` describes.
pub fn return_error(r: &Rejection) -> (resp: (u16, String))
    ensures
        resp.0 as int == spec_return_error(*r).0,
        resp.1@ == spec_return_error(*r).1,
{
    match r {
        Rejection::Failure(e) => match e {
            Error::DatabaseQueryError(db) => {
                match classify_db_error(db) {
                    StorageErrorClass::DuplicateKey => (
                        422,
                        String::from_str("Account already exists"),
                    ),
                    StorageErrorClass::Other => (422, String::from_str("Cannot update data")),
                }
            },
            Error::ReqwestAPIError(_) => (500, String::from_str("Internal Server Error")),
            Error::MiddlewareReqwestAPIError(_) => (
                500,
                String::from_str("Internal Server Error"),
            ),
            Error::ClientError(_) => (500, String::from_str("Internal Server Error")),
            Error::ServerError(_) => (500, String::from_str("Internal Server Error")),
            Error::WrongPassword => (401, String::from_str("Wrong E-mail/Password combination")),
            Error::ArgonLibraryError(_) => (
                401,
                String::from_str("Wrong E-mail/Password combination"),
            ),
            Error::Unauthorized => (
                401,
                String::from_str("No permitted to change underlying resource"),
            ),
            _ => (422, e.message()),
        },
        Rejection::CorsForbidden(m) => (403, m.clone()),
        Rejection::BodyDeserializeError(m) => (422, m.clone()),
        Rejection::RouteNotFound => (404, String::from_str("Route not found")),
    }
}

/// Renders the full-detail diagnostic line for a failure, exactly as
/// `spec_diagnostic` describes. Callers emit it to the observability sink
/// before returning the mapped response.
pub fn diagnostic(r: &Rejection) -> (line: String)
    ensures
        line@ == spec_diagnostic(*r),
{
    match r {
        Rejection::Failure(e) => match e {
            Error::DatabaseQueryError(_) => String::from_str("Database query error"),
            Error::ReqwestAPIError(m) => m.clone(),
            Error::MiddlewareReqwestAPIError(m) => m.clone(),
            Error::ClientError(a) => a.message(),
            Error::ServerError(a) => a.message(),
            Error::WrongPassword => String::from_str("Entered wrong password"),
            Error::ArgonLibraryError(m) => m.clone(),
            Error::Unauthorized => String::from_str("Not matching account id"),
            _ => e.message(),
        },
        Rejection::CorsForbidden(m) => {
            let mut s = String::from_str("CORS forbidden error: ");
            s.append(m.as_str());
            s
        },
        Rejection::BodyDeserializeError(m) => {
            let mut s = String::from_str("Cannot deserialize request body: ");
            s.append(m.as_str());
            s
        },
        Rejection::RouteNotFound => String::from_str("Requested route was not found"),
    }
}

/// A duplicate-key storage failure renders as status 422 with a message
/// distinct from the generic storage-failure message.
pub proof fn lemma_duplicate_key_rendering(db: DbError)
    requires
        spec_classify(db@.code) == StorageErrorClass::DuplicateKey,
    ensures
        spec_return_error(Rejection::Failure(Error::DatabaseQueryError(db))).0 == 422,
        spec_return_error(Rejection::Failure(Error::DatabaseQueryError(db))).1
            == "Account already exists"@,
        spec_return_error(Rejection::Failure(Error::DatabaseQueryError(db))).1 != spec_return_error(
            Rejection::Failure(
                Error::DatabaseQueryError(DbError { code: None, message: db.message }),
            ),
        ).1,
{
    reveal_strlit("Account already exists");
    reveal_strlit("Cannot update data");
    assert("Account already exists"@.len() != "Cannot update data"@.len());
}

} // verus!
