//! Reading a credential off the header that carries it.

use vstd::prelude::*;
use vstd::string::*;
use crate::auth::error_handler::AuthError;
use crate::text::{starts_with, trim_start_matches, trimmed_start};

verus! {

/// A credential as it was sent, before it is checked.
#[derive(Clone, Debug)]
pub enum Credential {
    /// A signed token.
    Bearer(String),
    /// An API key.
    ApiKey(String),
}

/// The content of a [`Credential`].
pub enum CredentialView {
    Bearer(Seq<char>),
    ApiKey(Seq<char>),
}

impl View for Credential {
    type V = CredentialView;

    open spec fn view(&self) -> CredentialView {
        match self {
            Credential::Bearer(t) => CredentialView::Bearer(t@),
            Credential::ApiKey(k) => CredentialView::ApiKey(k@),
        }
    }
}

/// The credential that an authorization header carries.
///
/// A request without the header is refused as lacking a token. A header
/// that begins with `Bearer ` carries a signed token, one that begins with
/// `ApiKey ` an API key, which must not be empty; any other header is
/// refused as invalid.
pub open spec fn credential_of(header: Option<Seq<char>>) -> Result<CredentialView, AuthError> {
    match header {
        None => Err(AuthError::MissingToken),
        Some(h) => if "Bearer "@.is_prefix_of(h) {
            Ok(CredentialView::Bearer(trimmed_start(h, "Bearer "@)))
        } else if !"ApiKey "@.is_prefix_of(h) {
            Err(AuthError::InvalidToken)
        } else if trimmed_start(h, "ApiKey "@).len() == 0 {
            Err(AuthError::InvalidToken)
        } else {
            Ok(CredentialView::ApiKey(trimmed_start(h, "ApiKey "@)))
        },
    }
}

/// Reads the credential off an authorization header.
pub fn extract_credential(header: Option<&str>) -> (r: Result<Credential, AuthError>)
    ensures
        match credential_of(
            match header {
                Some(h) => Some(h@),
                None => None,
            },
        ) {
            Ok(v) => r matches Ok(c) && c@ == v,
            Err(e) => r matches Err(x) && x == e,
        },
{
    let h = match header {
        Some(h) => h,
        None => {
            return Err(AuthError::MissingToken);
        },
    };
    if starts_with(h, "Bearer ") {
        return Ok(Credential::Bearer(trim_start_matches(h, "Bearer ").to_owned()));
    }
    if !starts_with(h, "ApiKey ") {
        return Err(AuthError::InvalidToken);
    }
    let key = trim_start_matches(h, "ApiKey ");
    if key.unicode_len() == 0 {
        return Err(AuthError::InvalidToken);
    }
    Ok(Credential::ApiKey(key.to_owned()))
}

} // verus!
