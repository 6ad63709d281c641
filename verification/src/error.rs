//! The failure kinds of the sign-in and session subsystem.

use vstd::prelude::*;

verus! {

/// Why a request was not served.
#[derive(Clone, Copy, Debug, PartialEq, Eq, Structural)]
pub enum AuthError {
    /// The provider configuration is missing or malformed.
    ConfigurationError,
    /// The `state` parameter differs from the stored CSRF token.
    CsrfMismatch,
    /// The CSRF token or the PKCE verifier was not sent back by the browser.
    MissingEphemeralState,
    /// The provider did not answer the code exchange or the profile request.
    ProviderExchangeFailure,
    /// The store failed on a lookup or a write.
    PersistenceFailure,
    /// No valid session: absent, malformed, unknown or expired.
    Unauthenticated,
}

/// The HTTP status that stands for each failure kind.
pub open spec fn status_of(e: AuthError) -> u16 {
    match e {
        AuthError::ConfigurationError => 500,
        AuthError::CsrfMismatch => 400,
        AuthError::MissingEphemeralState => 400,
        AuthError::ProviderExchangeFailure => 500,
        AuthError::PersistenceFailure => 500,
        AuthError::Unauthenticated => 401,
    }
}

impl AuthError {
    /// The HTTP status sent for this failure.
    pub fn status_code(&self) -> (code: u16)
        ensures
            code == status_of(*self),
    {
        match self {
            AuthError::ConfigurationError => 500,
            AuthError::CsrfMismatch => 400,
            AuthError::MissingEphemeralState => 400,
            AuthError::ProviderExchangeFailure => 500,
            AuthError::PersistenceFailure => 500,
            AuthError::Unauthenticated => 401,
        }
    }

    /// Whether the same request may succeed when the whole login is
    /// started again.
    pub fn is_transient(&self) -> (t: bool)
        ensures
            t == (*self == AuthError::ProviderExchangeFailure || *self
                == AuthError::PersistenceFailure),
    {
        match self {
            AuthError::ProviderExchangeFailure => true,
            AuthError::PersistenceFailure => true,
            _ => false,
        }
    }
}

} // verus!
