//! Refusals of a request, and the status with which each is answered.

use vstd::prelude::*;
use vstd::string::*;

verus! {

/// Why a request is refused.
#[derive(Clone, Copy, Debug, PartialEq, Eq, Structural)]
pub enum AuthError {
    InvalidToken,
    MissingToken,
    ExpiredToken,
    InvalidTokenFormat,
    JwksError,
    InvalidState,
    NotImplemented,
}

/// Status of a request that lacks a valid credential.
pub const STATUS_UNAUTHORIZED: u16 = 401;

/// Status of a request that failed on the gateway's side.
pub const STATUS_INTERNAL_SERVER_ERROR: u16 = 500;

/// The status with which a refusal is answered: a fault of the token is the
/// caller's, anything else the gateway's.
pub open spec fn status_of(e: AuthError) -> u16 {
    match e {
        AuthError::InvalidToken => STATUS_UNAUTHORIZED,
        AuthError::MissingToken => STATUS_UNAUTHORIZED,
        AuthError::ExpiredToken => STATUS_UNAUTHORIZED,
        AuthError::InvalidTokenFormat => STATUS_UNAUTHORIZED,
        AuthError::JwksError => STATUS_INTERNAL_SERVER_ERROR,
        AuthError::InvalidState => STATUS_INTERNAL_SERVER_ERROR,
        AuthError::NotImplemented => STATUS_INTERNAL_SERVER_ERROR,
    }
}

/// The words with which a refusal is answered.
pub open spec fn body_of(e: AuthError) -> Seq<char> {
    match e {
        AuthError::InvalidToken => "Invalid token"@,
        AuthError::MissingToken => "Missing token"@,
        AuthError::ExpiredToken => "Token has expired"@,
        AuthError::InvalidTokenFormat => "Invalid token format"@,
        AuthError::JwksError => "JWKS error"@,
        AuthError::InvalidState => "Invalid state"@,
        AuthError::NotImplemented => "Auth not implemented"@,
    }
}

impl AuthError {
    /// The status and the words with which the refusal is answered.
    pub fn into_response(self) -> (r: (u16, &'static str))
        ensures
            r.0 == status_of(self),
            r.1@ == body_of(self),
    {
        match self {
            AuthError::InvalidToken => (STATUS_UNAUTHORIZED, "Invalid token"),
            AuthError::MissingToken => (STATUS_UNAUTHORIZED, "Missing token"),
            AuthError::ExpiredToken => (STATUS_UNAUTHORIZED, "Token has expired"),
            AuthError::InvalidTokenFormat => (STATUS_UNAUTHORIZED, "Invalid token format"),
            AuthError::JwksError => (STATUS_INTERNAL_SERVER_ERROR, "JWKS error"),
            AuthError::InvalidState => (STATUS_INTERNAL_SERVER_ERROR, "Invalid state"),
            AuthError::NotImplemented => (STATUS_INTERNAL_SERVER_ERROR, "Auth not implemented"),
        }
    }
}

} // verus!
