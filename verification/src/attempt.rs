//! The secrets of one login attempt.
//!
//! They are made when the browser is sent to the provider, live in two
//! short-lived cookies, and are used once, when the provider sends the
//! browser back. They are never stored on the server.

use vstd::prelude::*;
use crate::error::AuthError;

verus! {

/// The CSRF token and the PKCE verifier of a login attempt.
#[derive(Clone, Debug, PartialEq, Eq)]
pub struct LoginAttemptState {
    pub csrf_token: String,
    pub pkce_verifier: String,
}

impl LoginAttemptState {
    /// Puts the secrets together again from what the browser sent back.
    /// Where either is absent the attempt cannot go on:
    /// `MissingEphemeralState`.
    pub fn recover(stored_csrf: Option<String>, stored_verifier: Option<String>) -> (attempt:
        Result<LoginAttemptState, AuthError>)
        ensures
            attempt is Ok <==> stored_csrf is Some && stored_verifier is Some,
            attempt is Ok ==> attempt->Ok_0.csrf_token@ == stored_csrf->0@
                && attempt->Ok_0.pkce_verifier@ == stored_verifier->0@,
            attempt is Err ==> attempt->Err_0 == AuthError::MissingEphemeralState,
    {
        match (stored_csrf, stored_verifier) {
            (Some(csrf_token), Some(pkce_verifier)) => Ok(
                LoginAttemptState { csrf_token, pkce_verifier },
            ),
            _ => Err(AuthError::MissingEphemeralState),
        }
    }

    /// Holds the `state` parameter that the provider returned against
    /// the CSRF token, and releases the PKCE verifier where the two are
    /// exactly equal; `CsrfMismatch` otherwise.
    pub fn confirm(self, returned_state: &String) -> (verifier: Result<String, AuthError>)
        ensures
            verifier is Ok <==> self.csrf_token@ == returned_state@,
            verifier is Ok ==> verifier->Ok_0@ == self.pkce_verifier@,
            verifier is Err ==> verifier->Err_0 == AuthError::CsrfMismatch,
    {
        if self.csrf_token == *returned_state {
            Ok(self.pkce_verifier)
        } else {
            Err(AuthError::CsrfMismatch)
        }
    }
}

} // verus!
