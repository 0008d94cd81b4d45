//! The typed failures of authentication and of the service boundary, with the
//! status and text each one is answered with.

use vstd::prelude::*;
use vstd::string::*;

verus! {

/// A status line and a body, as handed to the HTTP layer.
#[derive(Debug, PartialEq, Eq)]
pub struct Response {
    pub status: u16,
    pub body: String,
}

/// Why a request was not authenticated.
#[derive(Clone, Copy, Debug, PartialEq, Eq, Structural)]
pub enum AuthError {
    /// No `Authorization` header, or nothing left of it once the scheme is removed.
    MissingToken,
    /// The token has no readable key id in its header.
    MalformedToken,
    /// The token was read and was rejected.
    InvalidToken,
    /// The token names a key that the key set does not hold.
    UnknownKey,
    /// The key set of the authority could not be had.
    KeySetUnavailable,
    /// The introspection endpoint could not be reached.
    IntrospectionUnavailable,
}

impl AuthError {
    /// The failure lies with a service this gateway depends on, not with the token.
    pub open spec fn is_unavailable(self) -> bool {
        self == AuthError::KeySetUnavailable || self == AuthError::IntrospectionUnavailable
    }

    /// 401 for a bad or missing token, 500 where tokens cannot be checked right now.
    pub open spec fn status_spec(self) -> u16 {
        if self.is_unavailable() {
            500
        } else {
            401
        }
    }

    /// The reason string: the name of the kind.
    pub open spec fn reason_spec(self) -> Seq<char> {
        match self {
            AuthError::MissingToken => "MissingToken"@,
            AuthError::MalformedToken => "MalformedToken"@,
            AuthError::InvalidToken => "InvalidToken"@,
            AuthError::UnknownKey => "UnknownKey"@,
            AuthError::KeySetUnavailable => "KeySetUnavailable"@,
            AuthError::IntrospectionUnavailable => "IntrospectionUnavailable"@,
        }
    }

    /// The status this failure is answered with.
    pub fn status_code(&self) -> (status: u16)
        ensures
            status == self.status_spec(),
    {
        match self {
            AuthError::KeySetUnavailable | AuthError::IntrospectionUnavailable => 500,
            _ => 401,
        }
    }

    /// The reason string this failure is answered with.
    pub fn reason(&self) -> (text: String)
        ensures
            text@ == self.reason_spec(),
    {
        match self {
            AuthError::MissingToken => String::from_str("MissingToken"),
            AuthError::MalformedToken => String::from_str("MalformedToken"),
            AuthError::InvalidToken => String::from_str("InvalidToken"),
            AuthError::UnknownKey => String::from_str("UnknownKey"),
            AuthError::KeySetUnavailable => String::from_str("KeySetUnavailable"),
            AuthError::IntrospectionUnavailable => String::from_str("IntrospectionUnavailable"),
        }
    }

    /// The whole answer to an unauthenticated request.
    pub fn error_response(&self) -> (response: Response)
        ensures
            response.status == self.status_spec(),
            response.body@ == self.reason_spec(),
    {
        Response { status: self.status_code(), body: self.reason() }
    }
}

/// A failure of the service as a whole, as the HTTP layer reports it.
#[derive(Debug)]
pub enum ServiceError {
    InternalServerError,
    BadRequest(String),
    JWKSFetchError,
}

impl ServiceError {
    /// 400 for a bad request, 500 for the two failures of the service itself.
    pub open spec fn status_spec(self) -> u16 {
        match self {
            ServiceError::BadRequest(_) => 400,
            _ => 500,
        }
    }

    /// The body sent with the status.
    pub open spec fn body_spec(self) -> Seq<char> {
        match self {
            ServiceError::InternalServerError => "Internal Server Error, Please try later"@,
            ServiceError::BadRequest(message) => message@,
            ServiceError::JWKSFetchError => "Could not fetch JWKS"@,
        }
    }

    /// The one-line text of the error.
    pub open spec fn describe_spec(self) -> Seq<char> {
        match self {
            ServiceError::InternalServerError => "Internal Server Error"@,
            ServiceError::BadRequest(message) => "BadRequest: "@ + message@,
            ServiceError::JWKSFetchError => "JWKSFetchError"@,
        }
    }

    /// Converts this error into the response sent for it.
    pub fn error_response(&self) -> (response: Response)
        ensures
            response.status == self.status_spec(),
            response.body@ == self.body_spec(),
    {
        match self {
            ServiceError::InternalServerError => Response {
                status: 500,
                body: String::from_str("Internal Server Error, Please try later"),
            },
            ServiceError::BadRequest(message) => Response { status: 400, body: message.clone() },
            ServiceError::JWKSFetchError => Response {
                status: 500,
                body: String::from_str("Could not fetch JWKS"),
            },
        }
    }

    /// The one-line text of the error.
    pub fn describe(&self) -> (text: String)
        ensures
            text@ == self.describe_spec(),
    {
        match self {
            ServiceError::InternalServerError => String::from_str("Internal Server Error"),
            ServiceError::BadRequest(message) => String::from_str("BadRequest: ").concat(
                message.as_str(),
            ),
            ServiceError::JWKSFetchError => String::from_str("JWKSFetchError"),
        }
    }
}

} // verus!
