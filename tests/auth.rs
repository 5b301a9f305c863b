use paracord_gateway::auth::{
    bot_token, extract_auth_scheme, get_cookie_value, get_query_token, session_token,
    token_from_pairs, AdminUser, AuthAction, AuthError, AuthEvent, AuthMode, AuthScheme, AuthUser,
    Claims, CredentialCheck, LookupFailed, Pending, RequestCredentials, SessionKey,
};
use paracord_gateway::error::ApiError;

fn request(auth: Option<&str>, cookie: Option<&str>, query: Option<&str>) -> RequestCredentials {
    RequestCredentials {
        authorization: auth.map(|s| s.to_string()),
        cookie: cookie.map(|s| s.to_string()),
        query: query.map(|s| s.to_string()),
    }
}

fn claims(sid: Option<&str>, jti: Option<&str>) -> Claims {
    Claims {
        sub: 42,
        exp: 2_000_000_000,
        iat: 1_700_000_000,
        pub_key: None,
        sid: sid.map(|s| s.to_string()),
        jti: jti.map(|s| s.to_string()),
    }
}

#[test]
fn authorization_schemes() {
    assert_eq!(extract_auth_scheme(Some("Bearer abc")), Some(AuthScheme::Bearer("abc".to_string())));
    assert_eq!(extract_auth_scheme(Some("Bot xyz")), Some(AuthScheme::Bot("xyz".to_string())));
    assert_eq!(extract_auth_scheme(Some("bearer abc")), None);
    assert_eq!(extract_auth_scheme(Some("Basic dXNlcg==")), None);
    assert_eq!(extract_auth_scheme(None), None);
}

#[test]
fn cookie_lookup_splits_and_trims() {
    let h = Some("theme=dark;  paracord_access=tok.en=1 ; other=2");
    assert_eq!(get_cookie_value(h, "paracord_access"), Some("tok.en=1".to_string()));
    assert_eq!(get_cookie_value(h, "theme"), Some("dark".to_string()));
    assert_eq!(get_cookie_value(h, "missing"), None);
    assert_eq!(get_cookie_value(Some("novalue; a="), "a"), Some(String::new()));
    assert_eq!(get_cookie_value(None, "a"), None);
}

#[test]
fn query_token_is_decoded_and_first_wins() {
    assert_eq!(get_query_token(Some("a=1&token=x%2By+z")), Some("x+y z".to_string()));
    assert_eq!(get_query_token(Some("token=&token=later")), None);
    assert_eq!(get_query_token(Some("tokens=1")), None);
    assert_eq!(get_query_token(Some("")), None);
    assert_eq!(get_query_token(None), None);
}

#[test]
fn token_from_pairs_takes_the_first_token_pair() {
    let pairs = vec![
        ("x".to_string(), "1".to_string()),
        ("token".to_string(), "first".to_string()),
        ("token".to_string(), "second".to_string()),
    ];
    assert_eq!(token_from_pairs(&pairs), Some("first".to_string()));
    assert_eq!(token_from_pairs(&vec![]), None);
}

#[test]
fn session_token_priority() {
    let r = request(Some("Bearer header"), Some("paracord_access=cookie"), Some("token=query"));
    assert_eq!(session_token(&r), Some("header".to_string()));
    let r = request(Some("Bot b"), Some("paracord_access=cookie"), Some("token=query"));
    assert_eq!(session_token(&r), Some("cookie".to_string()));
    assert_eq!(bot_token(&r), Some("b".to_string()));
    let r = request(None, Some("x=1"), Some("token=query"));
    assert_eq!(session_token(&r), Some("query".to_string()));
    assert_eq!(session_token(&request(None, None, None)), None);
}

#[test]
fn no_credential_is_unauthorized_at_once() {
    let (c, a) = CredentialCheck::start(&request(None, Some("x=1"), Some("a=b")), AuthMode::User);
    assert_eq!(a, AuthAction::User(Err(ApiError::Unauthorized)));
    assert_eq!(c.pending, Pending::Done);
}

#[test]
fn failing_bearer_header_is_not_retried_with_the_cookie() {
    let req = request(Some("Bearer malformed"), Some("paracord_access=valid"), None);
    let (mut c, a) = CredentialCheck::start(&req, AuthMode::User);
    assert_eq!(a, AuthAction::ValidateToken("malformed".to_string()));
    let next = c.step(AuthEvent::TokenValidated(Err(AuthError::InvalidToken)));
    assert_eq!(next, AuthAction::User(Err(ApiError::Unauthorized)));
}

#[test]
fn active_session_resolves_the_user() {
    let req = request(None, Some("paracord_access=tok"), None);
    let (mut c, a) = CredentialCheck::start(&req, AuthMode::User);
    assert_eq!(a, AuthAction::ValidateToken("tok".to_string()));
    let key = SessionKey { user_id: 42, session_id: "s1".to_string(), token_id: "j1".to_string() };
    assert_eq!(
        c.step(AuthEvent::TokenValidated(Ok(claims(Some("s1"), Some("j1"))))),
        AuthAction::CheckSession(key)
    );
    assert_eq!(
        c.step(AuthEvent::SessionChecked(Ok(true))),
        AuthAction::User(Ok(AuthUser {
            user_id: 42,
            session_id: Some("s1".to_string()),
            token_jti: Some("j1".to_string()),
        }))
    );
}

#[test]
fn token_without_session_ids_is_unauthorized() {
    let req = request(None, None, Some("token=t"));
    let (mut c, _) = CredentialCheck::start(&req, AuthMode::User);
    assert_eq!(
        c.step(AuthEvent::TokenValidated(Ok(claims(Some("s1"), None)))),
        AuthAction::User(Err(ApiError::Unauthorized))
    );
}

#[test]
fn revoked_or_unknown_session_is_refused() {
    let req = request(Some("Bearer t"), None, None);
    let (mut c, _) = CredentialCheck::start(&req, AuthMode::User);
    c.step(AuthEvent::TokenValidated(Ok(claims(Some("s"), Some("j")))));
    assert_eq!(c.step(AuthEvent::SessionChecked(Ok(false))), AuthAction::User(Err(ApiError::Unauthorized)));

    let (mut c, _) = CredentialCheck::start(&req, AuthMode::Admin);
    c.step(AuthEvent::TokenValidated(Ok(claims(Some("s"), Some("j")))));
    assert_eq!(c.step(AuthEvent::SessionChecked(Err(LookupFailed))), AuthAction::Admin(Err(ApiError::Internal)));
}

#[test]
fn bot_token_is_the_fallback_of_a_user_resolution() {
    let req = request(Some("Bot secret"), None, None);
    let (mut c, a) = CredentialCheck::start(&req, AuthMode::User);
    assert_eq!(a, AuthAction::LookupBot("secret".to_string()));
    assert_eq!(
        c.step(AuthEvent::BotLookedUp(Ok(Some(7)))),
        AuthAction::User(Ok(AuthUser { user_id: 7, session_id: None, token_jti: None }))
    );

    let (mut c, _) = CredentialCheck::start(&req, AuthMode::User);
    assert_eq!(c.step(AuthEvent::BotLookedUp(Ok(None))), AuthAction::User(Err(ApiError::Unauthorized)));
    let (mut c, _) = CredentialCheck::start(&req, AuthMode::User);
    assert_eq!(c.step(AuthEvent::BotLookedUp(Err(LookupFailed))), AuthAction::User(Err(ApiError::Unauthorized)));
}

#[test]
fn bot_principal_is_never_an_administrator() {
    let req = request(Some("Bot secret"), None, None);
    let (_, a) = CredentialCheck::start(&req, AuthMode::Admin);
    assert_eq!(a, AuthAction::Admin(Err(ApiError::Unauthorized)));
}

#[test]
fn administrator_needs_the_capability() {
    let req = request(Some("Bearer t"), None, None);
    let outcome = |flag: Result<Option<bool>, LookupFailed>| {
        let (mut c, _) = CredentialCheck::start(&req, AuthMode::Admin);
        c.step(AuthEvent::TokenValidated(Ok(claims(Some("s"), Some("j")))));
        assert_eq!(c.step(AuthEvent::SessionChecked(Ok(true))), AuthAction::LookupAdmin(42));
        c.step(AuthEvent::AdminLookedUp(flag))
    };
    assert_eq!(outcome(Ok(Some(true))), AuthAction::Admin(Ok(AdminUser { user_id: 42 })));
    assert_eq!(outcome(Ok(Some(false))), AuthAction::Admin(Err(ApiError::Forbidden)));
    assert_eq!(outcome(Ok(None)), AuthAction::Admin(Err(ApiError::Unauthorized)));
    assert_eq!(outcome(Err(LookupFailed)), AuthAction::Admin(Err(ApiError::Internal)));
}

#[test]
fn auth_error_messages() {
    assert_eq!(AuthError::InvalidToken.message(), "invalid token");
    assert_eq!(AuthError::Internal("db down".to_string()).message(), "internal error: db down");
}

#[test]
fn api_error_statuses() {
    assert_eq!(ApiError::Unauthorized.status(), 401);
    assert_eq!(ApiError::Forbidden.status(), 403);
    assert_eq!(ApiError::RateLimited.status(), 429);
    assert_eq!(ApiError::BadRequest.status(), 400);
    assert_eq!(ApiError::BadGateway.status(), 502);
    assert_eq!(ApiError::Internal.status(), 500);
}
