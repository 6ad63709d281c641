//! The identity provider's client: its configuration, and the redirect
//! that starts a login attempt.

use vstd::prelude::*;
use vstd::string::StringExecFns;
use oauth2::basic::BasicClient;
use oauth2::{
    AuthUrl,
    ClientId,
    CsrfToken,
    PkceCodeChallenge,
    PkceCodeVerifier,
    RedirectUrl,
    Scope,
};
use crate::attempt::LoginAttemptState;
use crate::constants::{
    CALLBACK_PATH,
    PROVIDER_AUTH_URL,
    PROVIDER_TOKEN_URL,
    SCOPE_EMAIL,
    SCOPE_PROFILE,
};
use crate::error::AuthError;
use crate::response::{login_redirect, AuthResponse};

verus! {

/// Whether a text is an absolute URL, as `url::Url::parse` judges it.
pub uninterp spec fn url_wellformed(text: Seq<char>) -> bool;

/// The provider's authorization URL for one login attempt, as the
/// `oauth2` crate composes it: the authorization endpoint with the
/// response type `code`, the client's identifier, the CSRF token as
/// `state`, the S256 challenge of the PKCE verifier, the redirect URL and
/// the two scopes as its query.
pub uninterp spec fn authorize_url_text(
    client_id: Seq<char>,
    auth_url: Seq<char>,
    redirect_url: Seq<char>,
    first_scope: Seq<char>,
    second_scope: Seq<char>,
    csrf: Seq<char>,
    pkce_verifier: Seq<char>,
) -> Seq<char>;

/// A PKCE verifier has between 43 and 128 bytes.
pub open spec fn pkce_verifier_fits(verifier: Seq<char>) -> bool {
    43 <= vstd::utf8::encode_utf8(verifier).len() <= 128
}

/// Calls `url::Url::parse`, which `oauth2` re-exports and by which its
/// `AuthUrl`, `TokenUrl` and `RedirectUrl` accept or refuse a text, and
/// says whether the text parsed.
#[verifier::external_body]
fn parses_as_url(text: &str) -> (ok: bool)
    ensures
        ok == url_wellformed(text@),
{
    oauth2::url::Url::parse(text).is_ok()
}

/// Calls `oauth2::CsrfToken::new_random` and hands its secret out: 16
/// random bytes in base64. Nothing is promised of the value.
#[verifier::external_body]
fn random_csrf_token() -> (token: String)
{
    CsrfToken::new_random().secret().clone()
}

/// Calls `oauth2::PkceCodeChallenge::new_random_sha256` and hands the
/// verifier's secret out: 32 random bytes in unpadded base64, which are
/// 43 bytes of text, within the bounds that the crate itself asserts of
/// a verifier.
#[verifier::external_body]
fn random_pkce_verifier() -> (verifier: String)
    ensures
        pkce_verifier_fits(verifier@),
{
    let (_, verifier) = PkceCodeChallenge::new_random_sha256();
    verifier.secret().clone()
}

/// Builds an `oauth2::basic::BasicClient` on the given endpoint, client
/// identifier and redirect URL and asks it for the authorization URL
/// (`authorize_url`, `add_scope` twice, `set_pkce_challenge`, `url`) with
/// the given CSRF token and the S256 challenge of the given verifier
/// (`PkceCodeChallenge::from_code_verifier_sha256`). The text depends on
/// the arguments alone. The two URLs must parse and the verifier must
/// have a length that the crate accepts; it panics otherwise.
#[verifier::external_body]
fn build_authorize_url(
    client_id: &str,
    auth_url: &str,
    redirect_url: &str,
    first_scope: &str,
    second_scope: &str,
    csrf: &str,
    pkce_verifier: &str,
) -> (url: String)
    requires
        url_wellformed(auth_url@),
        url_wellformed(redirect_url@),
        pkce_verifier_fits(pkce_verifier@),
    ensures
        url@ == authorize_url_text(
            client_id@,
            auth_url@,
            redirect_url@,
            first_scope@,
            second_scope@,
            csrf@,
            pkce_verifier@,
        ),
{
    let id = ClientId::new(client_id.to_owned());
    let auth = AuthUrl::new(auth_url.to_owned()).unwrap();
    let redirect = RedirectUrl::new(redirect_url.to_owned()).unwrap();
    let client = BasicClient::new(id, None, auth, None).set_redirect_uri(redirect);
    let verifier = PkceCodeVerifier::new(pkce_verifier.to_owned());
    let challenge = PkceCodeChallenge::from_code_verifier_sha256(&verifier);
    let token = CsrfToken::new(csrf.to_owned());
    let request = client.authorize_url(move || token)
        .add_scope(Scope::new(first_scope.to_owned()))
        .add_scope(Scope::new(second_scope.to_owned()))
        .set_pkce_challenge(challenge);
    request.url().0.to_string()
}

/// What the environment holds of the provider's configuration: the
/// client identifier, the client secret and the application's base URL,
/// each absent where it is not set.
#[derive(Clone, Debug, PartialEq, Eq)]
pub struct ProviderEnv {
    pub client_id: Option<String>,
    pub client_secret: Option<String>,
    pub base_url: Option<String>,
}

/// A provider client that is ready for use.
#[derive(Clone, Debug, PartialEq, Eq)]
pub struct OauthClient {
    pub client_id: String,
    pub client_secret: String,
    pub auth_url: String,
    pub token_url: String,
    pub redirect_url: String,
}

impl OauthClient {
    /// Every URL of the client parses.
    pub open spec fn wf(&self) -> bool {
        &&& url_wellformed(self.auth_url@)
        &&& url_wellformed(self.token_url@)
        &&& url_wellformed(self.redirect_url@)
    }
}

/// Whether `env` holds a complete and well-formed configuration.
pub open spec fn env_usable(env: &ProviderEnv) -> bool {
    &&& env.client_id is Some
    &&& env.client_secret is Some
    &&& env.base_url is Some
    &&& url_wellformed(PROVIDER_AUTH_URL@)
    &&& url_wellformed(PROVIDER_TOKEN_URL@)
    &&& url_wellformed(env.base_url->0@ + CALLBACK_PATH@)
}

/// The client that `env` configures.
pub open spec fn client_of(env: &ProviderEnv, client: &OauthClient) -> bool {
    &&& client.client_id@ == env.client_id->0@
    &&& client.client_secret@ == env.client_secret->0@
    &&& client.auth_url@ == PROVIDER_AUTH_URL@
    &&& client.token_url@ == PROVIDER_TOKEN_URL@
    &&& client.redirect_url@ == env.base_url->0@ + CALLBACK_PATH@
}

/// The provider client for the configuration in `env`. It fails with
/// `ConfigurationError` exactly where a value is absent or a URL does not
/// parse.
pub fn get_oauth_client(env: &ProviderEnv) -> (made: Result<OauthClient, AuthError>)
    ensures
        made is Ok <==> env_usable(env),
        made is Ok ==> made->Ok_0.wf() && client_of(env, &made->Ok_0),
        made is Err ==> made->Err_0 == AuthError::ConfigurationError,
{
    let Some(client_id) = &env.client_id else {
        return Err(AuthError::ConfigurationError);
    };
    let Some(client_secret) = &env.client_secret else {
        return Err(AuthError::ConfigurationError);
    };
    if !parses_as_url(PROVIDER_AUTH_URL) || !parses_as_url(PROVIDER_TOKEN_URL) {
        return Err(AuthError::ConfigurationError);
    }
    let Some(base_url) = &env.base_url else {
        return Err(AuthError::ConfigurationError);
    };
    let redirect_url = base_url.clone().concat(CALLBACK_PATH);
    if !parses_as_url(redirect_url.as_str()) {
        return Err(AuthError::ConfigurationError);
    }
    Ok(
        OauthClient {
            client_id: client_id.clone(),
            client_secret: client_secret.clone(),
            auth_url: PROVIDER_AUTH_URL.to_owned(),
            token_url: PROVIDER_TOKEN_URL.to_owned(),
            redirect_url,
        },
    )
}

/// The provider's authorization URL for a login attempt of `client` with
/// the given secrets.
pub open spec fn authorize_url_of(client: &OauthClient, csrf: Seq<char>, verifier: Seq<char>)
    -> Seq<char> {
    authorize_url_text(
        client.client_id@,
        client.auth_url@,
        client.redirect_url@,
        SCOPE_PROFILE@,
        SCOPE_EMAIL@,
        csrf,
        verifier,
    )
}

/// Starts a login attempt with the given secrets: the redirect to the
/// provider's authorization URL, which carries the CSRF token and the
/// verifier's challenge, and the two short-lived cookies that hold the
/// token and the verifier.
pub fn login_redirect_for(client: &OauthClient, attempt: LoginAttemptState) -> (r: AuthResponse)
    requires
        client.wf(),
        pkce_verifier_fits(attempt.pkce_verifier@),
    ensures
        r@ == login_redirect(
            authorize_url_of(client, attempt.csrf_token@, attempt.pkce_verifier@),
            attempt.csrf_token@,
            attempt.pkce_verifier@,
        ),
{
    let url = build_authorize_url(
        client.client_id.as_str(),
        client.auth_url.as_str(),
        client.redirect_url.as_str(),
        SCOPE_PROFILE,
        SCOPE_EMAIL,
        attempt.csrf_token.as_str(),
        attempt.pkce_verifier.as_str(),
    );
    AuthResponse::login_redirect(url, attempt.csrf_token, attempt.pkce_verifier)
}

/// Starts a login attempt under fresh random secrets. It fails with
/// `ConfigurationError` exactly where `env` is not usable, and then hands
/// no secret out. No network call is made.
pub fn login(env: &ProviderEnv) -> (r: Result<AuthResponse, AuthError>)
    ensures
        r is Ok <==> env_usable(env),
        r is Err ==> r->Err_0 == AuthError::ConfigurationError,
        r is Ok ==> exists|client: OauthClient, csrf: Seq<char>, verifier: Seq<char>|
            client_of(env, &client) && r->Ok_0@ == login_redirect(
                #[trigger] authorize_url_of(&client, csrf, verifier),
                csrf,
                verifier,
            ),
{
    match get_oauth_client(env) {
        Err(e) => Err(e),
        Ok(client) => {
            let attempt = LoginAttemptState {
                csrf_token: random_csrf_token(),
                pkce_verifier: random_pkce_verifier(),
            };
            let ghost c = attempt.csrf_token@;
            let ghost v = attempt.pkce_verifier@;
            let r = login_redirect_for(&client, attempt);
            assert(r@ == login_redirect(authorize_url_of(&client, c, v), c, v));
            Ok(r)
        },
    }
}

} // verus!
