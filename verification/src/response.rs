//! What a handler answers: a status, a redirect target and the cookies
//! that the browser is to keep or to drop.

use vstd::prelude::*;
use crate::constants::{
    COOKIE_AUTH_CODE_VERIFIER,
    COOKIE_AUTH_CSRF_STATE,
    COOKIE_AUTH_SESSION,
    LOGIN_ATTEMPT_DURATION,
};
use crate::error::{status_of, AuthError};

verus! {

/// A cookie that carries a secret. Every cookie of this subsystem is
/// HTTP-only, same-site lax and scoped to the whole application path. A
/// maximum age of 0 with an empty value tells the browser to drop it.
#[derive(Clone, Debug, PartialEq, Eq)]
pub struct SecretCookie {
    pub name: String,
    pub value: String,
    pub path: String,
    pub http_only: bool,
    pub same_site_lax: bool,
    pub max_age: u64,
}

/// A cookie as a plain value.
pub struct CookieView {
    pub name: Seq<char>,
    pub value: Seq<char>,
    pub path: Seq<char>,
    pub http_only: bool,
    pub same_site_lax: bool,
    pub max_age: u64,
}

impl View for SecretCookie {
    type V = CookieView;

    open spec fn view(&self) -> CookieView {
        CookieView {
            name: self.name@,
            value: self.value@,
            path: self.path@,
            http_only: self.http_only,
            same_site_lax: self.same_site_lax,
            max_age: self.max_age,
        }
    }
}

/// The cookie that sets `name` to `value` for `max_age` seconds.
pub open spec fn secret_cookie(name: Seq<char>, value: Seq<char>, max_age: u64) -> CookieView {
    CookieView { name, value, path: "/"@, http_only: true, same_site_lax: true, max_age }
}

/// The cookie that makes the browser drop `name`.
pub open spec fn removal_cookie(name: Seq<char>) -> CookieView {
    secret_cookie(name, Seq::empty(), 0)
}

/// An answer to the browser.
#[derive(Clone, Debug, PartialEq, Eq)]
pub struct AuthResponse {
    pub status: u16,
    pub location: Option<String>,
    pub cookies: Vec<SecretCookie>,
}

/// An answer as a plain value.
pub struct ResponseView {
    pub status: u16,
    pub location: Option<Seq<char>>,
    pub cookies: Seq<CookieView>,
}

impl View for AuthResponse {
    type V = ResponseView;

    open spec fn view(&self) -> ResponseView {
        ResponseView {
            status: self.status,
            location: match self.location {
                Some(l) => Some(l@),
                None => None,
            },
            cookies: self.cookies@.map_values(|c: SecretCookie| c@),
        }
    }
}

/// The two cookies that end a login attempt: they drop the CSRF token
/// and the PKCE verifier.
pub open spec fn attempt_cleared() -> Seq<CookieView> {
    seq![removal_cookie(COOKIE_AUTH_CSRF_STATE@), removal_cookie(COOKIE_AUTH_CODE_VERIFIER@)]
}

/// The answer that starts a login attempt: a redirect to the provider,
/// with the CSRF token and the PKCE verifier in two short-lived cookies.
pub open spec fn login_redirect(url: Seq<char>, csrf: Seq<char>, verifier: Seq<char>)
    -> ResponseView {
    ResponseView {
        status: 302,
        location: Some(url),
        cookies: seq![
            secret_cookie(COOKIE_AUTH_CSRF_STATE@, csrf, LOGIN_ATTEMPT_DURATION),
            secret_cookie(COOKIE_AUTH_CODE_VERIFIER@, verifier, LOGIN_ATTEMPT_DURATION),
        ],
    }
}

/// The answer that ends a login attempt in success: a redirect to the
/// landing location, the attempt's cookies dropped, and the session
/// identifier set for the rest of the session's lifetime.
pub open spec fn session_granted(landing: Seq<char>, session_text: Seq<char>, max_age: u64)
    -> ResponseView {
    ResponseView {
        status: 302,
        location: Some(landing),
        cookies: attempt_cleared().push(secret_cookie(COOKIE_AUTH_SESSION@, session_text, max_age)),
    }
}

/// The answer that ends a login attempt in failure: the status of the
/// failure, no redirect, and the attempt's cookies dropped.
pub open spec fn attempt_rejected(e: AuthError) -> ResponseView {
    ResponseView { status: status_of(e), location: None, cookies: attempt_cleared() }
}

/// The answer to a logout: a redirect to the landing location, with the
/// session cookie dropped.
pub open spec fn logged_out(landing: Seq<char>) -> ResponseView {
    ResponseView {
        status: 302,
        location: Some(landing),
        cookies: seq![removal_cookie(COOKIE_AUTH_SESSION@)],
    }
}

/// The answer to a request that is refused outside a login attempt: the
/// status of the failure and nothing else.
pub open spec fn refused(e: AuthError) -> ResponseView {
    ResponseView { status: status_of(e), location: None, cookies: Seq::empty() }
}

impl SecretCookie {
    /// The cookie that sets `name` to `value` for `max_age` seconds.
    pub fn new(name: &str, value: String, max_age: u64) -> (c: SecretCookie)
        ensures
            c@ == secret_cookie(name@, value@, max_age),
    {
        SecretCookie {
            name: name.to_owned(),
            value,
            path: "/".to_owned(),
            http_only: true,
            same_site_lax: true,
            max_age,
        }
    }

    /// The cookie that makes the browser drop `name`.
    pub fn removal(name: &str) -> (c: SecretCookie)
        ensures
            c@ == removal_cookie(name@),
    {
        SecretCookie::new(name, String::new(), 0)
    }

    /// Whether the cookie tells the browser to drop it.
    pub fn is_removal(&self) -> (r: bool)
        ensures
            r == (self@.max_age == 0 && self@.value.len() == 0),
    {
        self.max_age == 0 && self.value.as_str().is_empty()
    }
}

impl AuthResponse {
    /// See [`login_redirect`].
    pub fn login_redirect(url: String, csrf: String, verifier: String) -> (r: AuthResponse)
        ensures
            r@ == login_redirect(url@, csrf@, verifier@),
    {
        let mut cookies: Vec<SecretCookie> = Vec::new();
        cookies.push(SecretCookie::new(COOKIE_AUTH_CSRF_STATE, csrf, LOGIN_ATTEMPT_DURATION));
        cookies.push(SecretCookie::new(COOKIE_AUTH_CODE_VERIFIER, verifier, LOGIN_ATTEMPT_DURATION));
        let r = AuthResponse { status: 302, location: Some(url), cookies };
        assert(r@.cookies =~= login_redirect(url@, csrf@, verifier@).cookies);
        r
    }

    /// See [`session_granted`].
    pub fn session_granted(landing: &str, session_text: String, max_age: u64) -> (r:
        AuthResponse)
        ensures
            r@ == session_granted(landing@, session_text@, max_age),
    {
        let mut cookies: Vec<SecretCookie> = Vec::new();
        cookies.push(SecretCookie::removal(COOKIE_AUTH_CSRF_STATE));
        cookies.push(SecretCookie::removal(COOKIE_AUTH_CODE_VERIFIER));
        cookies.push(SecretCookie::new(COOKIE_AUTH_SESSION, session_text, max_age));
        let r = AuthResponse { status: 302, location: Some(landing.to_owned()), cookies };
        assert(r@.cookies =~= session_granted(landing@, session_text@, max_age).cookies);
        r
    }

    /// See [`attempt_rejected`].
    pub fn attempt_rejected(e: AuthError) -> (r: AuthResponse)
        ensures
            r@ == attempt_rejected(e),
    {
        let mut cookies: Vec<SecretCookie> = Vec::new();
        cookies.push(SecretCookie::removal(COOKIE_AUTH_CSRF_STATE));
        cookies.push(SecretCookie::removal(COOKIE_AUTH_CODE_VERIFIER));
        let r = AuthResponse { status: e.status_code(), location: None, cookies };
        assert(r@.cookies =~= attempt_rejected(e).cookies);
        r
    }

    /// See [`logged_out`].
    pub fn logged_out(landing: &str) -> (r: AuthResponse)
        ensures
            r@ == logged_out(landing@),
    {
        let mut cookies: Vec<SecretCookie> = Vec::new();
        cookies.push(SecretCookie::removal(COOKIE_AUTH_SESSION));
        let r = AuthResponse { status: 302, location: Some(landing.to_owned()), cookies };
        assert(r@.cookies =~= logged_out(landing@).cookies);
        r
    }

    /// See [`refused`].
    pub fn refused(e: AuthError) -> (r: AuthResponse)
        ensures
            r@ == refused(e),
    {
        let r = AuthResponse { status: e.status_code(), location: None, cookies: Vec::new() };
        assert(r@.cookies =~= refused(e).cookies);
        r
    }
}

} // verus!
