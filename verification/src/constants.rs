//! Names and durations shared by the handlers.

use vstd::prelude::*;

verus! {

/// Name of the cookie that carries the session identifier.
pub const COOKIE_AUTH_SESSION: &'static str = "auth_session";

/// Name of the cookie that carries the CSRF token of a login attempt.
pub const COOKIE_AUTH_CSRF_STATE: &'static str = "auth_csrf_state";

/// Name of the cookie that carries the PKCE verifier of a login attempt.
pub const COOKIE_AUTH_CODE_VERIFIER: &'static str = "auth_code_verifier";

/// Lifetime of a session, in seconds: 24 hours.
pub const SESSION_DURATION: u64 = 86400;

/// Lifetime of the two cookies of a login attempt, in seconds: 5 minutes.
pub const LOGIN_ATTEMPT_DURATION: u64 = 300;

/// Time between two sweeps of expired sessions, in seconds: 1 hour.
pub const SWEEP_PERIOD: u64 = 3600;

/// The provider's authorization endpoint.
pub const PROVIDER_AUTH_URL: &'static str = "https://accounts.google.com/o/oauth2/v2/auth";

/// The provider's token endpoint.
pub const PROVIDER_TOKEN_URL: &'static str = "https://www.googleapis.com/oauth2/v3/token";

/// The provider's profile endpoint.
pub const PROVIDER_USERINFO_URL: &'static str = "https://www.googleapis.com/oauth2/v3/userinfo";

/// The scope that opens the profile.
pub const SCOPE_PROFILE: &'static str = "https://www.googleapis.com/auth/userinfo.profile";

/// The scope that opens the email address.
pub const SCOPE_EMAIL: &'static str = "https://www.googleapis.com/auth/userinfo.email";

/// The path under the application's base URL to which the provider
/// sends the browser back.
pub const CALLBACK_PATH: &'static str = "/auth/google/callback";

} // verus!
