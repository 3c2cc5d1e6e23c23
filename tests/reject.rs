use reject::{ErrorResponse, HTTPError};

fn respond(e: HTTPError) -> ErrorResponse {
    e.into_response()
}

#[test]
fn bad_request_missing_field() {
    let r = respond(HTTPError::bad_request("missing field x"));
    assert_eq!(r.status, 400);
    assert_eq!(r.body, "missing field x");
    assert!(r.log.is_none());
}

#[test]
fn bad_request_keeps_text_verbatim() {
    for s in ["", "a", "  spaced  ", "line\nbreak", "ünïcödé ✓", "internal server error"] {
        let r = respond(HTTPError::bad_request(s));
        assert_eq!(r.status, 400);
        assert_eq!(r.body, s);
        assert!(r.log.is_none());
    }
}

#[test]
fn bad_request_carries_text() {
    match HTTPError::bad_request("oops") {
        HTTPError::BadRequest { error } => assert_eq!(error, "oops"),
        _ => panic!("wrong variant"),
    }
}

#[test]
fn forbidden_response() {
    let r = respond(HTTPError::Forbidden);
    assert_eq!(r.status, 403);
    assert_eq!(r.body, "forbidden");
    assert!(r.log.is_none());
}

#[test]
fn not_found_response() {
    let r = respond(HTTPError::NotFound);
    assert_eq!(r.status, 404);
    assert_eq!(r.body, "not found");
    assert!(r.log.is_none());
}

#[test]
fn internal_server_error_db_connection_lost() {
    let r = respond(HTTPError::internal_server_error("db connection lost"));
    assert_eq!(r.status, 500);
    assert_eq!(r.body, "internal server error");
    assert_eq!(r.log, Some("db connection lost".to_string()));
}

#[test]
fn internal_server_error_hides_text() {
    for e in ["", "secret", "password=SECRET-REDACTED", "x\ny"] {
        let r = respond(HTTPError::internal_server_error(e));
        assert_eq!(r.status, 500);
        assert_eq!(r.body, "internal server error");
        assert_ne!(r.body, e);
        assert_eq!(r.log.as_deref(), Some(e));
    }
}

#[test]
fn internal_server_error_has_no_backtrace() {
    match HTTPError::internal_server_error("boom") {
        HTTPError::InternalServerError { error, backtrace } => {
            assert_eq!(error, "boom");
            assert!(backtrace.is_none());
        }
        _ => panic!("wrong variant"),
    }
}

#[test]
fn internal_server_error_with_backtrace_logs_both() {
    let e = HTTPError::InternalServerError {
        error: "boom".to_string(),
        backtrace: Some("at main".to_string()),
    };
    assert_eq!(e.message(), "internal server error: boom\nat main");
    let r = respond(e);
    assert_eq!(r.status, 500);
    assert_eq!(r.body, "internal server error");
    assert_eq!(r.log, Some("boom\nat main".to_string()));
}

#[test]
fn message_internal_server_error() {
    assert_eq!(
        HTTPError::internal_server_error("X").message(),
        "internal server error: X"
    );
}

#[test]
fn message_bad_request() {
    assert_eq!(HTTPError::bad_request("X").message(), "bad request: X");
    assert_eq!(HTTPError::bad_request("").message(), "bad request: ");
}

#[test]
fn message_unit_variants() {
    assert_eq!(HTTPError::Forbidden.message(), "forbidden");
    assert_eq!(HTTPError::NotFound.message(), "not found");
}
