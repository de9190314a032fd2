use rustwebdev::digits::IntParseKind;
use rustwebdev::error::{
    classify_db_error, APILayerError, DbError, Error, StorageErrorClass,
};
use rustwebdev::recovery::{diagnostic, return_error, Rejection};

fn db_error(code: Option<&str>) -> DbError {
    DbError {
        code: code.map(|c| c.to_string()),
        message: "provider internals, never surfaced".to_string(),
    }
}

fn api_error(status: u16, message: &str) -> APILayerError {
    APILayerError {
        status,
        message: message.to_string(),
    }
}

#[test]
fn duplicate_key_code_maps_to_its_own_message() {
    let r = Rejection::Failure(Error::DatabaseQueryError(db_error(Some("23505"))));
    assert_eq!(return_error(&r), (422, "Account already exists".to_string()));
}

#[test]
fn other_codes_map_to_the_generic_storage_message() {
    for code in [Some("23503"), Some("0"), None] {
        let r = Rejection::Failure(Error::DatabaseQueryError(db_error(code)));
        assert_eq!(return_error(&r), (422, "Cannot update data".to_string()));
    }
}

#[test]
fn malformed_provider_codes_degrade_to_other() {
    // Absent or non-numeric provider codes classify as Other, without any
    // unrelated failure.
    assert_eq!(classify_db_error(&db_error(None)), StorageErrorClass::Other);
    for code in ["", "abc", "23505x", "-23505", "duplicate", "999999999999999999"] {
        assert_eq!(
            classify_db_error(&db_error(Some(code))),
            StorageErrorClass::Other,
            "code {:?} must degrade to Other",
            code
        );
    }
    assert_eq!(
        classify_db_error(&db_error(Some("23505"))),
        StorageErrorClass::DuplicateKey
    );
}

#[test]
fn remote_failures_never_echo_provider_internals() {
    let internal = "Internal Server Error".to_string();
    let cases = [
        Error::ReqwestAPIError("connection reset by provider".to_string()),
        Error::MiddlewareReqwestAPIError("retries exhausted".to_string()),
        Error::ClientError(api_error(403, "invalid api key")),
        Error::ServerError(api_error(503, "backend down")),
    ];
    for e in cases {
        assert_eq!(return_error(&Rejection::Failure(e)), (500, internal.clone()));
    }
}

#[test]
fn caller_correctable_failures_keep_their_detail() {
    assert_eq!(
        return_error(&Rejection::Failure(Error::ParseError(IntParseKind::InvalidDigit))),
        (422, "Cannot parse parameter: invalid digit found in string".to_string())
    );
    assert_eq!(
        return_error(&Rejection::Failure(Error::MissingParameters)),
        (422, "Missing parameter(s)".to_string())
    );
    assert_eq!(
        return_error(&Rejection::Failure(Error::IndexOutOfBound)),
        (422, "Index out of bound".to_string())
    );
    assert_eq!(
        return_error(&Rejection::Failure(Error::CannotDecryptToken)),
        (422, "Cannot decrypt auth token".to_string())
    );
    assert_eq!(
        return_error(&Rejection::Failure(Error::MigrationError("ddl".to_string()))),
        (422, "Cannot migrate data".to_string())
    );
}

#[test]
fn authentication_failures_map_to_unauthorized() {
    assert_eq!(
        return_error(&Rejection::Failure(Error::WrongPassword)),
        (401, "Wrong E-mail/Password combination".to_string())
    );
    assert_eq!(
        return_error(&Rejection::Failure(Error::ArgonLibraryError("bad salt".to_string()))),
        (401, "Wrong E-mail/Password combination".to_string())
    );
    assert_eq!(
        return_error(&Rejection::Failure(Error::Unauthorized)),
        (401, "No permitted to change underlying resource".to_string())
    );
}

#[test]
fn boundary_failures_use_the_boundary_message() {
    assert_eq!(
        return_error(&Rejection::CorsForbidden("origin not allowed".to_string())),
        (403, "origin not allowed".to_string())
    );
    assert_eq!(
        return_error(&Rejection::BodyDeserializeError("missing field title".to_string())),
        (422, "missing field title".to_string())
    );
    assert_eq!(
        return_error(&Rejection::RouteNotFound),
        (404, "Route not found".to_string())
    );
}

#[test]
fn diagnostics_keep_the_full_detail() {
    assert_eq!(
        diagnostic(&Rejection::Failure(Error::DatabaseQueryError(db_error(Some("23505"))))),
        "Database query error"
    );
    assert_eq!(
        diagnostic(&Rejection::Failure(Error::ReqwestAPIError("timed out".to_string()))),
        "timed out"
    );
    assert_eq!(
        diagnostic(&Rejection::Failure(Error::ClientError(api_error(429, "out of credits")))),
        "Status: 429, Message: out of credits"
    );
    assert_eq!(
        diagnostic(&Rejection::CorsForbidden("origin not allowed".to_string())),
        "CORS forbidden error: origin not allowed"
    );
    assert_eq!(
        diagnostic(&Rejection::BodyDeserializeError("bad json".to_string())),
        "Cannot deserialize request body: bad json"
    );
    assert_eq!(diagnostic(&Rejection::RouteNotFound), "Requested route was not found");
    assert_eq!(
        diagnostic(&Rejection::Failure(Error::WrongPassword)),
        "Entered wrong password"
    );
    assert_eq!(
        diagnostic(&Rejection::Failure(Error::Unauthorized)),
        "Not matching account id"
    );
}

#[test]
fn every_failure_kind_renders_a_stable_message() {
    assert_eq!(
        Error::ParseError(IntParseKind::Empty).message(),
        "Cannot parse parameter: cannot parse integer from empty string"
    );
    assert_eq!(Error::MissingParameters.message(), "Missing parameter(s)");
    assert_eq!(Error::IndexOutOfBound.message(), "Index out of bound");
    assert_eq!(Error::WrongPassword.message(), "Wrong password");
    assert_eq!(Error::CannotDecryptToken.message(), "Cannot decrypt auth token");
    assert_eq!(
        Error::ArgonLibraryError("x".to_string()).message(),
        "Cannot verify password"
    );
    assert_eq!(
        Error::DatabaseQueryError(db_error(None)).message(),
        "Cannot update, invalid data."
    );
    assert_eq!(
        Error::ReqwestAPIError("refused".to_string()).message(),
        "External API error: refused"
    );
    assert_eq!(
        Error::MiddlewareReqwestAPIError("refused".to_string()).message(),
        "External API error: refused"
    );
    assert_eq!(
        Error::ClientError(api_error(400, "bad payload")).message(),
        "External Client error: Status: 400, Message: bad payload"
    );
    assert_eq!(
        Error::ServerError(api_error(500, "boom")).message(),
        "External Server error: Status: 500, Message: boom"
    );
    assert_eq!(
        Error::Unauthorized.message(),
        "No permission to change the underlying resource"
    );
    assert_eq!(Error::MigrationError("ddl".to_string()).message(), "Cannot migrate data");
}
