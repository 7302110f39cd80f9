//! The credentials that a request may carry.

use vstd::prelude::*;

verus! {

/// What a signed token says of its bearer.
#[derive(Clone, Debug)]
pub struct JwtClaims {
    /// The subject: the login of the bearer.
    pub sub: String,
    /// When the token expires, in seconds since the epoch.
    pub exp: usize,
    /// When the token was issued, in seconds since the epoch.
    pub iat: usize,
}

/// A signed token with what it says.
#[derive(Clone, Debug)]
pub struct JwtToken {
    pub claims: JwtClaims,
    pub token: String,
}

/// A credential that was checked.
#[derive(Clone, Debug)]
pub enum AuthToken {
    Jwt(JwtToken),
    /// The user whom an API key belongs to.
    ApiKey(i32),
}

} // verus!
