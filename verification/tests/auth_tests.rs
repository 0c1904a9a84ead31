use ifocus_core::auth::AccessTokenResponse;
use ifocus_core::auth::AuthError;
use ifocus_core::auth::GitHubOAuthError;
use ifocus_core::auth::GitHubUser;
use ifocus_core::auth::auth_result;
use ifocus_core::auth::resolve_client_secret;
use ifocus_core::auth::token_from_exchange;

fn token_payload(token: &str) -> AccessTokenResponse {
    AccessTokenResponse {
        access_token: token.to_string(),
        token_type: "bearer".to_string(),
        scope: "read:user".to_string(),
    }
}

fn error_payload(kind: &str) -> GitHubOAuthError {
    GitHubOAuthError {
        error: kind.to_string(),
        error_description: "the code has expired".to_string(),
        error_uri: None,
    }
}

#[test]
fn exchange_error_payload_wins() {
    let r = token_from_exchange(
        Some(error_payload("bad_verification_code")),
        Some(token_payload("t0")),
    );
    match r {
        Err(AuthError::Declined(e)) => assert_eq!(e.error, "bad_verification_code"),
        other => panic!("expected a declined exchange, got {:?}", other),
    }
}

#[test]
fn exchange_token_payload_yields_access_token() {
    let r = token_from_exchange(None, Some(token_payload("gho_abc")));
    assert_eq!(r.unwrap(), "gho_abc");
}

#[test]
fn exchange_neither_payload_is_malformed() {
    let r = token_from_exchange(None, None);
    assert!(matches!(r, Err(AuthError::MalformedResponse)));
}

#[test]
fn secret_prefers_build_time_value() {
    let r = resolve_client_secret(
        Some("from-build".to_string()),
        Some("from-env".to_string()),
    );
    assert_eq!(r.unwrap(), "from-build");
}

#[test]
fn secret_falls_back_to_runtime_value() {
    let r = resolve_client_secret(None, Some("from-env".to_string()));
    assert_eq!(r.unwrap(), "from-env");
}

#[test]
fn secret_missing_everywhere() {
    let r = resolve_client_secret(None, None);
    assert!(matches!(r, Err(AuthError::MissingClientSecret)));
}

#[test]
fn auth_result_pairs_token_and_user() {
    let user = GitHubUser {
        login: "octocat".to_string(),
        name: Some("The Octocat".to_string()),
        avatar_url: "https://example.invalid/a.png".to_string(),
    };
    let r = auth_result("gho_abc".to_string(), user);
    assert_eq!(r.token, "gho_abc");
    assert_eq!(r.user.login, "octocat");
    assert_eq!(r.user.name.as_deref(), Some("The Octocat"));
}
