//! The closed error taxonomy: every failure a request can surface carries
//! exactly one of these kinds, each renders to a stable human-readable
//! message, and a storage failure can be classified further by the provider's
//! error code without ever panicking on malformed provider metadata.

use vstd::prelude::*;
use vstd::string::StringExecFns;

use crate::digits::{
    dec_str, spec_parse_u32, u16_to_dec, parse_u32, IntParseKind, int_parse_kind_text,
};

verus! {

/// Provider error code that signals a unique-constraint violation.
pub const DUPLICATE_KEY_ERRORCODE: u32 = 23505;

/// An error body a remote dependency answered with: its status and message.
#[derive(Debug)]
pub struct APILayerError {
    /// Status code the provider returned.
    pub status: u16,
    /// Message body the provider returned.
    pub message: String,
}

/// Mathematical model of a remote provider error.
pub ghost struct ApiErrorModel {
    pub status: int,
    pub message: Seq<char>,
}

impl View for APILayerError {
    type V = ApiErrorModel;

    open spec fn view(&self) -> ApiErrorModel {
        ApiErrorModel { status: self.status as int, message: self.message@ }
    }
}

impl Clone for APILayerError {
    /// The copy carries the same provider error.
    fn clone(&self) -> (r: Self)
        ensures
            r == *self,
    {
        APILayerError { status: self.status, message: self.message.clone() }
    }
}

/// Text a provider error renders to.
pub open spec fn api_layer_error_text(e: ApiErrorModel) -> Seq<char> {
    "Status: "@ + dec_str(e.status) + ", Message: "@ + e.message
}

impl APILayerError {
    /// Renders the provider error for a log line.
    pub fn message(&self) -> (r: String)
        ensures
            r@ == api_layer_error_text(self@),
    {
        let mut s = String::from_str("Status: ");
        let dec = u16_to_dec(self.status);
        s.append(dec.as_str());
        s.append(", Message: ");
        s.append(self.message.as_str());
        s
    }
}

/// An opaque storage-provider error: the optional provider error code, read
/// as text, and the provider's diagnostic message.
#[derive(Debug)]
pub struct DbError {
    /// Provider-specific error code, when the provider supplied one.
    pub code: Option<String>,
    /// Provider diagnostic text; never surfaced to a caller.
    pub message: String,
}

/// Mathematical model of a storage-provider error.
pub ghost struct DbErrorModel {
    pub code: Option<Seq<char>>,
    pub message: Seq<char>,
}

impl View for DbError {
    type V = DbErrorModel;

    open spec fn view(&self) -> DbErrorModel {
        DbErrorModel { code: self.code.deep_view(), message: self.message@ }
    }
}

impl Clone for DbError {
    /// The copy carries the same provider error.
    fn clone(&self) -> (r: Self)
        ensures
            r == *self,
    {
        let code = match &self.code {
            None => None,
            Some(c) => Some(c.clone()),
        };
        DbError { code, message: self.message.clone() }
    }
}

/// The closed set of failure kinds. Every operation that can fail returns
/// a domain value or exactly one of these; kinds are never combined.
#[derive(Debug)]
pub enum Error {
    /// A query or path value failed to parse into its expected type.
    ParseError(IntParseKind),
    /// A required query, path or body field was absent.
    MissingParameters,
    /// A requested index exceeds the addressable range.
    IndexOutOfBound,
    /// The supplied password did not match the stored one.
    WrongPassword,
    /// An authentication token could not be decrypted.
    CannotDecryptToken,
    /// The password-hashing library failed; payload is its description.
    ArgonLibraryError(String),
    /// The persistence layer could not complete an operation.
    DatabaseQueryError(DbError),
    /// The HTTP transport under the moderation client failed.
    ReqwestAPIError(String),
    /// The retrying HTTP middleware under the moderation client failed.
    MiddlewareReqwestAPIError(String),
    /// The remote moderation provider rejected the request (its 4xx).
    ClientError(APILayerError),
    /// The remote moderation provider failed (its 5xx).
    ServerError(APILayerError),
    /// The caller lacks permission over the addressed resource.
    Unauthorized,
    /// The persistence schema could not be brought to the expected version.
    MigrationError(String),
}

impl Clone for Error {
    /// The copy carries the same failure.
    fn clone(&self) -> (r: Self)
        ensures
            r == *self,
    {
        match self {
            Error::ParseError(k) => Error::ParseError(*k),
            Error::MissingParameters => Error::MissingParameters,
            Error::IndexOutOfBound => Error::IndexOutOfBound,
            Error::WrongPassword => Error::WrongPassword,
            Error::CannotDecryptToken => Error::CannotDecryptToken,
            Error::ArgonLibraryError(m) => Error::ArgonLibraryError(m.clone()),
            Error::DatabaseQueryError(db) => Error::DatabaseQueryError(db.clone()),
            Error::ReqwestAPIError(m) => Error::ReqwestAPIError(m.clone()),
            Error::MiddlewareReqwestAPIError(m) => Error::MiddlewareReqwestAPIError(m.clone()),
            Error::ClientError(a) => Error::ClientError(a.clone()),
            Error::ServerError(a) => Error::ServerError(a.clone()),
            Error::Unauthorized => Error::Unauthorized,
            Error::MigrationError(m) => Error::MigrationError(m.clone()),
        }
    }
}

/// The stable message each failure kind renders to. Storage and migration
/// failures render fixed generic text: provider internals never cross here.
pub open spec fn error_text(e: Error) -> Seq<char> {
    match e {
        Error::ParseError(k) => "Cannot parse parameter: "@ + int_parse_kind_text(k),
        Error::MissingParameters => "Missing parameter(s)"@,
        Error::IndexOutOfBound => "Index out of bound"@,
        Error::WrongPassword => "Wrong password"@,
        Error::CannotDecryptToken => "Cannot decrypt auth token"@,
        Error::ArgonLibraryError(_) => "Cannot verify password"@,
        Error::DatabaseQueryError(_) => "Cannot update, invalid data."@,
        Error::ReqwestAPIError(m) => "External API error: "@ + m@,
        Error::MiddlewareReqwestAPIError(m) => "External API error: "@ + m@,
        Error::ClientError(a) => "External Client error: "@ + api_layer_error_text(a@),
        Error::ServerError(a) => "External Server error: "@ + api_layer_error_text(a@),
        Error::Unauthorized => "No permission to change the underlying resource"@,
        Error::MigrationError(_) => "Cannot migrate data"@,
    }
}

impl Error {
    /// Renders the stable, human-readable message of this failure.
    pub fn message(&self) -> (r: String)
        ensures
            r@ == error_text(*self),
    {
        match self {
            Error::ParseError(k) => {
                let mut s = String::from_str("Cannot parse parameter: ");
                s.append(k.message_str());
                s
            },
            Error::MissingParameters => String::from_str("Missing parameter(s)"),
            Error::IndexOutOfBound => String::from_str("Index out of bound"),
            Error::WrongPassword => String::from_str("Wrong password"),
            Error::CannotDecryptToken => String::from_str("Cannot decrypt auth token"),
            Error::ArgonLibraryError(_) => String::from_str("Cannot verify password"),
            Error::DatabaseQueryError(_) => String::from_str("Cannot update, invalid data."),
            Error::ReqwestAPIError(m) => {
                let mut s = String::from_str("External API error: ");
                s.append(m.as_str());
                s
            },
            Error::MiddlewareReqwestAPIError(m) => {
                let mut s = String::from_str("External API error: ");
                s.append(m.as_str());
                s
            },
            Error::ClientError(a) => {
                let mut s = String::from_str("External Client error: ");
                let t = a.message();
                s.append(t.as_str());
                s
            },
            Error::ServerError(a) => {
                let mut s = String::from_str("External Server error: ");
                let t = a.message();
                s.append(t.as_str());
                s
            },
            Error::Unauthorized => String::from_str(
                "No permission to change the underlying resource",
            ),
            Error::MigrationError(_) => String::from_str("Cannot migrate data"),
        }
    }
}

/// How a storage failure is classified once the provider code is inspected.
#[derive(Debug, Clone, Copy, PartialEq, Eq, Structural)]
pub enum StorageErrorClass {
    /// A unique-constraint violation: the identity already exists.
    DuplicateKey,
    /// Any other storage failure.
    Other,
}

/// A storage failure is a duplicate key exactly when the provider supplied a
/// code and that code reads as the canonical unique-violation number; an
/// absent or non-numeric code falls back to `Other`.
pub open spec fn spec_classify(code: Option<Seq<char>>) -> StorageErrorClass {
    match code {
        Some(c) => if spec_parse_u32(c) == Ok::<u32, IntParseKind>(DUPLICATE_KEY_ERRORCODE) {
            StorageErrorClass::DuplicateKey
        } else {
            StorageErrorClass::Other
        },
        None => StorageErrorClass::Other,
    }
}

/// The canonical unique-violation code, written as text, classifies as a
/// duplicate key.
pub proof fn lemma_duplicate_code_classifies()
    ensures
        spec_classify(Some("23505"@)) == StorageErrorClass::DuplicateKey,
{
    reveal_strlit("23505");
    let s = "23505"@;
    assert(s.len() == 5);
    assert(s[0] == '2' && s[1] == '3' && s[2] == '5' && s[3] == '0' && s[4] == '5');
    let bound: int = 0xffff_ffff;
    assert(s.skip(1) =~= seq!['3', '5', '0', '5']);
    assert(seq!['3', '5', '0', '5'].skip(1) =~= seq!['5', '0', '5']);
    assert(seq!['5', '0', '5'].skip(1) =~= seq!['0', '5']);
    assert(seq!['0', '5'].skip(1) =~= seq!['5']);
    assert(seq!['5'].skip(1) =~= Seq::<char>::empty());
    reveal_with_fuel(crate::digits::scan_digits, 7);
    assert(crate::digits::scan_digits(s, 0, bound) == crate::digits::ScanOutcome::Value(23505));
    assert(spec_parse_u32(s) == Ok::<u32, IntParseKind>(23505u32));
}

/// Classifies a provider error by its code field, as `spec_classify`
/// describes. An absent or non-numeric code degrades to `Other`; no code
/// shape can make this fail.
pub fn classify_db_error(e: &DbError) -> (r: StorageErrorClass)
    ensures
        r == spec_classify(e@.code),
        e.code is None ==> r == StorageErrorClass::Other,
        e.code matches Some(c) && spec_parse_u32(c@) is Err ==> r == StorageErrorClass::Other,
{
    match &e.code {
        None => StorageErrorClass::Other,
        Some(c) => {
            match parse_u32(c.as_str()) {
                Ok(v) => {
                    if v == DUPLICATE_KEY_ERRORCODE {
                        StorageErrorClass::DuplicateKey
                    } else {
                        StorageErrorClass::Other
                    }
                },
                Err(_) => StorageErrorClass::Other,
            }
        },
    }
}

} // verus!
