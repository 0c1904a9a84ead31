//! The data shapes of the host's sign-in exchange, and the decisions that
//! do not depend on the network.
//!
//! The host performs the HTTP calls and turns response bytes into these
//! values; this module owns the types and decides what an exchange outcome
//! means. The authorization server answers a token request with either a
//! token payload or an error payload on the same endpoint, so the host
//! tries both readings and hands whichever parsed here.

use vstd::prelude::*;

verus! {

/// The success payload of the token endpoint.
#[derive(Clone, Debug)]
pub struct AccessTokenResponse {
    pub access_token: String,
    pub token_type: String,
    pub scope: String,
}

/// The error payload of the token endpoint.
#[derive(Clone, Debug)]
pub struct GitHubOAuthError {
    pub error: String,
    pub error_description: String,
    pub error_uri: Option<String>,
}

/// The signed-in user's public profile, as the user endpoint reports it.
#[derive(Clone, Debug)]
pub struct GitHubUser {
    pub login: String,
    pub name: Option<String>,
    pub avatar_url: String,
}

/// What a completed sign-in hands the frontend: the access token and the
/// user it belongs to.
#[derive(Clone, Debug)]
pub struct AuthResult {
    pub token: String,
    pub user: GitHubUser,
}

/// Why a sign-in could not complete without (or before) any network
/// answer being usable.
#[derive(Clone, Debug)]
pub enum AuthError {
    /// The authorization server answered with its error payload.
    Declined(GitHubOAuthError),
    /// The answer parsed neither as a token nor as an error payload.
    MalformedResponse,
    /// No client secret was configured at build time or in the
    /// environment.
    MissingClientSecret,
}

/// Decides a token-endpoint answer: an error payload wins over anything
/// else, a token payload yields its access token, and an answer that
/// parsed as neither is malformed.
pub fn token_from_exchange(declined: Option<GitHubOAuthError>, accepted: Option<
    AccessTokenResponse,
>) -> (r: Result<String, AuthError>)
    ensures
        declined matches Some(e) ==> (r matches Err(f) && f matches AuthError::Declined(g) && g
            == e),
        declined is None ==> (accepted matches Some(t) ==> (r matches Ok(tok) && tok
            == t.access_token)),
        declined is None && accepted is None ==> (r matches Err(f) && f
            matches AuthError::MalformedResponse),
{
    match declined {
        Some(e) => Err(AuthError::Declined(e)),
        None => match accepted {
            Some(t) => Ok(t.access_token),
            None => Err(AuthError::MalformedResponse),
        },
    }
}

/// Decides which configured client secret to use: one baked in at build
/// time takes precedence over one found in the environment at run time,
/// and having neither is an error.
pub fn resolve_client_secret(build_time: Option<String>, run_time: Option<String>) -> (r: Result<
    String,
    AuthError,
>)
    ensures
        build_time matches Some(s) ==> (r matches Ok(v) && v == s),
        build_time is None ==> (run_time matches Some(s) ==> (r matches Ok(v) && v == s)),
        build_time is None && run_time is None ==> (r matches Err(e) && e
            matches AuthError::MissingClientSecret),
{
    match build_time {
        Some(s) => Ok(s),
        None => match run_time {
            Some(s) => Ok(s),
            None => Err(AuthError::MissingClientSecret),
        },
    }
}

/// Pairs a token with the user it authenticated.
pub fn auth_result(token: String, user: GitHubUser) -> (r: AuthResult)
    ensures
        r.token == token,
        r.user == user,
{
    AuthResult { token, user }
}

} // verus!
