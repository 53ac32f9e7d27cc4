use tetronix::errors::{AppError, RepositoryError, ServicesError};
use tetronix::text::{decimal_text, join};

fn s(text: &str) -> String {
    text.to_string()
}

#[test]
fn decimal_writes_integers() {
    assert_eq!(decimal_text(0), "0");
    assert_eq!(decimal_text(7), "7");
    assert_eq!(decimal_text(10), "10");
    assert_eq!(decimal_text(100), "100");
    assert_eq!(decimal_text(-1), "-1");
    assert_eq!(decimal_text(-120), "-120");
    assert_eq!(decimal_text(i32::MAX), "2147483647");
    assert_eq!(decimal_text(i32::MIN), "-2147483648");
    for n in [-1000, -99, -10, -9, 9, 11, 99, 101, 5000, 123456789] {
        assert_eq!(decimal_text(n), n.to_string());
    }
}

#[test]
fn join_puts_one_text_after_the_other() {
    assert_eq!(join("ab", "cd"), "abcd");
    assert_eq!(join("", "x"), "x");
    assert_eq!(join("x", ""), "x");
}

#[test]
fn repository_error_messages() {
    assert_eq!(RepositoryError::NotFound { what: s("User") }.message(), "User not found");
    assert_eq!(RepositoryError::AlreadyExists { what: s("User") }.message(), "User already exists");
    assert_eq!(
        RepositoryError::InternalServerError(s("boom")).message(),
        "internal server error: boom"
    );
    assert_eq!(RepositoryError::InvalidInput { what: s("User name") }.message(), "User name is invalid");
    assert_eq!(
        RepositoryError::InvalidLimit { low: 0, high: 100 }.message(),
        "limit must be greater or equal to 0 and less or equal to 100"
    );
    assert_eq!(RepositoryError::SerializationError(s("x")).message(), "serialization error: x");
    assert_eq!(RepositoryError::DeserializationError(s("y")).message(), "deserialization error: y");
}

#[test]
fn services_error_messages() {
    assert_eq!(
        ServicesError::InternalServerError(s("boom")).message(),
        "internal server error: boom"
    );
    assert_eq!(
        ServicesError::InvalidInput { field: s("name"), message: s("too short") }.message(),
        "Invalid Input on field : name , too short"
    );
    assert_eq!(ServicesError::NotFound { what: s("Game") }.message(), "Game not found");
    assert_eq!(ServicesError::AlreadyExists { what: s("User") }.message(), "User already exists");
    assert_eq!(ServicesError::UnableToDelete { what: s("User") }.message(), "unable to delete User");
    assert_eq!(ServicesError::UnableToSerialize { what: s("a") }.message(), "unable to serialize a");
    assert_eq!(
        ServicesError::UnableToDeserialize { what: s("b") }.message(),
        "unable to deserialize b"
    );
    assert_eq!(
        ServicesError::AuthenticationFailed { reason: s("no") }.message(),
        "Authentication Failed : no"
    );
}

#[test]
fn app_error_messages() {
    assert_eq!(AppError::InternalServerError(s("x")).message(), "internal server error: x");
    assert_eq!(AppError::BadRequest(s("x")).message(), "bad request: x");
    assert_eq!(AppError::Unauthorized.message(), "Authentication required");
    assert_eq!(AppError::NotFound(s("x")).message(), "not found: x");
    assert_eq!(AppError::Conflict(s("x")).message(), "conflict: x");
    assert_eq!(AppError::AuthenticationFailed(s("x")).message(), "authentication failed: x");
    assert_eq!(AppError::RateLimitExceeded.message(), "Rate limit exceeded");
}

#[test]
fn a_repository_error_becomes_a_services_error() {
    assert_eq!(
        ServicesError::from(RepositoryError::NotFound { what: s("User") }),
        ServicesError::NotFound { what: s("User") }
    );
    assert_eq!(
        ServicesError::from(RepositoryError::AlreadyExists { what: s("Session") }),
        ServicesError::AlreadyExists { what: s("Session") }
    );
    assert_eq!(
        ServicesError::from(RepositoryError::InternalServerError(s("boom"))),
        ServicesError::InternalServerError(s("boom"))
    );
    assert_eq!(
        ServicesError::from(RepositoryError::InvalidInput { what: s("User name") }),
        ServicesError::InvalidInput { field: s("User name"), message: s("is invalid") }
    );
    assert_eq!(
        ServicesError::from(RepositoryError::InvalidLimit { low: 0, high: 100 }),
        ServicesError::InvalidInput {
            field: s("limit"),
            message: s("must be greater or equal to 0 and less or equal to 100"),
        }
    );
    assert_eq!(
        ServicesError::from(RepositoryError::InvalidLimit { low: -5, high: 12 }),
        ServicesError::InvalidInput {
            field: s("limit"),
            message: s("must be greater or equal to -5 and less or equal to 12"),
        }
    );
    assert_eq!(
        ServicesError::from(RepositoryError::SerializationError(s("a"))),
        ServicesError::UnableToSerialize { what: s("a") }
    );
    assert_eq!(
        ServicesError::from(RepositoryError::DeserializationError(s("b"))),
        ServicesError::UnableToDeserialize { what: s("b") }
    );
}

#[test]
fn a_services_error_becomes_an_app_error() {
    assert_eq!(
        AppError::from(ServicesError::AuthenticationFailed { reason: s("bad code") }),
        AppError::AuthenticationFailed(s("bad code"))
    );
    assert_eq!(
        AppError::from(ServicesError::InvalidInput { field: s("limit"), message: s("too big") }),
        AppError::BadRequest(s("Invalid limit: too big"))
    );
    assert_eq!(
        AppError::from(ServicesError::NotFound { what: s("Game") }),
        AppError::NotFound(s("Game not found"))
    );
    assert_eq!(
        AppError::from(ServicesError::AlreadyExists { what: s("User") }),
        AppError::Conflict(s("User already exists"))
    );
    assert_eq!(
        AppError::from(ServicesError::UnableToDelete { what: s("User") }),
        AppError::InternalServerError(s("Something went wrong"))
    );
    assert_eq!(
        AppError::from(ServicesError::UnableToSerialize { what: s("x") }),
        AppError::InternalServerError(s("Data processing error"))
    );
    assert_eq!(
        AppError::from(ServicesError::UnableToDeserialize { what: s("x") }),
        AppError::InternalServerError(s("Data processing error"))
    );
    assert_eq!(
        AppError::from(ServicesError::InternalServerError(s("secret detail"))),
        AppError::InternalServerError(s("Something went wrong"))
    );
}

#[test]
fn status_codes() {
    assert_eq!(AppError::InternalServerError(s("x")).status_code(), 500);
    assert_eq!(AppError::BadRequest(s("x")).status_code(), 400);
    assert_eq!(AppError::Unauthorized.status_code(), 401);
    assert_eq!(AppError::NotFound(s("x")).status_code(), 404);
    assert_eq!(AppError::Conflict(s("x")).status_code(), 409);
    assert_eq!(AppError::AuthenticationFailed(s("x")).status_code(), 401);
    assert_eq!(AppError::RateLimitExceeded.status_code(), 429);
}

#[test]
fn the_response_to_a_rate_limit() {
    let response = AppError::RateLimitExceeded.error_response();
    assert_eq!(response.status, 429);
    assert_eq!(
        response.headers,
        vec![
            (s("X-RateLimit-Limit"), s("100")),
            (s("X-RateLimit-Remaining"), s("0")),
            (s("Retry-After"), s("10")),
            (s("Content-Type"), s("application/json")),
        ]
    );
    assert_eq!(response.body, "{\"error\":\"Rate limit exceeded\"}");
}

#[test]
fn the_response_to_another_error() {
    let response = AppError::NotFound(s("Game not found")).error_response();
    assert_eq!(response.status, 404);
    assert_eq!(response.headers, vec![(s("Content-Type"), s("application/json"))]);
    assert_eq!(response.body, "not found: Game not found");
    let response = AppError::Unauthorized.error_response();
    assert_eq!(response.status, 401);
    assert_eq!(response.body, "Authentication required");
}
