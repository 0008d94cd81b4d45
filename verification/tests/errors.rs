use storage_gateway::errors::{AuthError, Response, ServiceError};

const ALL: [AuthError; 6] = [
    AuthError::MissingToken,
    AuthError::MalformedToken,
    AuthError::InvalidToken,
    AuthError::UnknownKey,
    AuthError::KeySetUnavailable,
    AuthError::IntrospectionUnavailable,
];

#[test]
fn auth_errors_about_the_token_are_unauthorized() {
    assert_eq!(AuthError::MissingToken.status_code(), 401);
    assert_eq!(AuthError::MalformedToken.status_code(), 401);
    assert_eq!(AuthError::InvalidToken.status_code(), 401);
    assert_eq!(AuthError::UnknownKey.status_code(), 401);
}

#[test]
fn auth_errors_about_a_dependency_are_server_errors() {
    assert_eq!(AuthError::KeySetUnavailable.status_code(), 500);
    assert_eq!(AuthError::IntrospectionUnavailable.status_code(), 500);
}

#[test]
fn auth_error_reasons_name_the_kind() {
    let names = [
        "MissingToken",
        "MalformedToken",
        "InvalidToken",
        "UnknownKey",
        "KeySetUnavailable",
        "IntrospectionUnavailable",
    ];
    for (e, name) in ALL.iter().zip(names) {
        assert_eq!(e.reason(), name);
        assert_eq!(format!("{:?}", e), name);
    }
}

#[test]
fn auth_error_response_joins_status_and_reason() {
    for e in ALL {
        let r = e.error_response();
        assert_eq!(r, Response { status: e.status_code(), body: e.reason() });
    }
    assert_eq!(
        AuthError::UnknownKey.error_response(),
        Response { status: 401, body: "UnknownKey".to_string() }
    );
}

#[test]
fn service_error_responses() {
    assert_eq!(
        ServiceError::InternalServerError.error_response(),
        Response { status: 500, body: "Internal Server Error, Please try later".to_string() }
    );
    assert_eq!(
        ServiceError::BadRequest("no such thing".to_string()).error_response(),
        Response { status: 400, body: "no such thing".to_string() }
    );
    assert_eq!(
        ServiceError::JWKSFetchError.error_response(),
        Response { status: 500, body: "Could not fetch JWKS".to_string() }
    );
}

#[test]
fn service_error_descriptions() {
    assert_eq!(ServiceError::InternalServerError.describe(), "Internal Server Error");
    assert_eq!(ServiceError::BadRequest("x y".to_string()).describe(), "BadRequest: x y");
    assert_eq!(ServiceError::BadRequest(String::new()).describe(), "BadRequest: ");
    assert_eq!(ServiceError::JWKSFetchError.describe(), "JWKSFetchError");
}
