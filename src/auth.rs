//! Credential extraction: which credential a request presents, and the
//! decisions that turn the outcomes of token validation and store lookups
//! into an authenticated principal or a refusal.
use vstd::pervasive::unreached;
use vstd::prelude::*;

use crate::error::ApiError;
use crate::text::{
    before, chars_equal, chars_of, find_char_from, opt_chars, opt_string_chars,
    slice_chars, string_of, trim, trimmed,
};

verus! {

// ---------------------------------------------------------------------------
// Which credential a request presents
/// A credential carried by the `Authorization` header.
#[derive(Debug, Clone, PartialEq, Eq)]
pub enum AuthScheme {
    /// `Bearer <token>`: a signed session token.
    Bearer(String),
    /// `Bot <token>`: a bot application's token.
    Bot(String),
}

pub open spec fn bearer_prefix() -> Seq<char> {
    seq!['B', 'e', 'a', 'r', 'e', 'r', ' ']
}

pub open spec fn bot_prefix() -> Seq<char> {
    seq!['B', 'o', 't', ' ']
}

/// The bearer token of an `Authorization` header value, if it has that
/// scheme.
pub open spec fn bearer_token_of(authorization: Option<Seq<char>>) -> Option<Seq<char>> {
    match authorization {
        Some(h) => if bearer_prefix().is_prefix_of(h) {
            Some(h.skip(7))
        } else {
            None
        },
        None => None,
    }
}

/// The bot token of an `Authorization` header value, if it has that scheme.
pub open spec fn bot_token_of(authorization: Option<Seq<char>>) -> Option<Seq<char>> {
    match authorization {
        Some(h) => if !bearer_prefix().is_prefix_of(h) && bot_prefix().is_prefix_of(h) {
            Some(h.skip(4))
        } else {
            None
        },
        None => None,
    }
}

/// The credential in an `Authorization` header value, if it uses the
/// bearer or the bot scheme.
pub fn extract_auth_scheme(authorization: Option<&str>) -> (r: Option<AuthScheme>)
    ensures
        match r {
            Some(AuthScheme::Bearer(t)) => bearer_token_of(opt_chars(authorization)) == Some(t@),
            Some(AuthScheme::Bot(t)) => bot_token_of(opt_chars(authorization)) == Some(t@),
            None => bearer_token_of(opt_chars(authorization)) is None && bot_token_of(
                opt_chars(authorization),
            ) is None,
        },
        bearer_token_of(opt_chars(authorization)) is Some ==> r is Some && r->Some_0 is Bearer,
{
    proof {
        reveal_strlit("Bearer ");
        reveal_strlit("Bot ");
        assert("Bearer "@ =~= bearer_prefix());
        assert("Bot "@ =~= bot_prefix());
    }
    let raw = match authorization {
        Some(h) => chars_of(h),
        None => return None,
    };
    if crate::text::has_prefix(&raw, &chars_of("Bearer ")) {
        return Some(AuthScheme::Bearer(string_of(&slice_chars(&raw, 7, raw.len()))));
    }
    if crate::text::has_prefix(&raw, &chars_of("Bot ")) {
        return Some(AuthScheme::Bot(string_of(&slice_chars(&raw, 4, raw.len()))));
    }
    None
}

/// The value of a `name=value` pair whose name is `name`.
pub open spec fn pair_value(pair: Seq<char>, name: Seq<char>) -> Option<Seq<char>> {
    let n = before(pair, '=');
    if n.len() < pair.len() && n == name {
        Some(pair.skip(n.len() as int + 1))
    } else {
        None
    }
}

/// The value of the first cookie named `name` in a `Cookie` header value:
/// the header is split at `;`, each part trimmed and split at its first `=`.
pub open spec fn cookie_in(raw: Seq<char>, name: Seq<char>) -> Option<Seq<char>>
    decreases raw.len(),
{
    let part = before(raw, ';');
    let found = pair_value(trim(part), name);
    if found is Some {
        found
    } else if part.len() < raw.len() {
        cookie_in(raw.skip(part.len() as int + 1), name)
    } else {
        None
    }
}

proof fn lemma_before_len(s: Seq<char>, sep: char)
    ensures
        before(s, sep).len() <= s.len(),
        before(s, sep).len() < s.len() ==> s[before(s, sep).len() as int] == sep,
        before(s, sep) == s.take(before(s, sep).len() as int),
    decreases s.len(),
{
    if s.len() > 0 && s[0] != sep {
        lemma_before_len(s.drop_first(), sep);
        assert(before(s, sep) =~= s.take(before(s, sep).len() as int));
    }
}

fn cookie_pair_value(part: &Vec<char>, name: &Vec<char>) -> (r: Option<Vec<char>>)
    ensures
        match r {
            Some(v) => pair_value(part@, name@) == Some(v@),
            None => pair_value(part@, name@) is None,
        },
{
    let eq = find_char_from(part, 0, '=');
    assert(part@.skip(0) =~= part@);
    assert(part@.subrange(0, eq as int) =~= part@.take(eq as int));
    proof {
        lemma_before_len(part@, '=');
    }
    if eq < part.len() && chars_equal(&slice_chars(part, 0, eq), name) {
        let v = slice_chars(part, eq + 1, part.len());
        assert(v@ =~= part@.skip(eq + 1));
        Some(v)
    } else {
        None
    }
}

/// The value of the cookie `cookie_name` in a `Cookie` header value.
pub fn get_cookie_value(cookie_header: Option<&str>, cookie_name: &str) -> (r: Option<String>)
    ensures
        opt_string_chars(r) == match cookie_header {
            Some(h) => cookie_in(h@, cookie_name@),
            None => None,
        },
{
    let raw = match cookie_header {
        Some(h) => chars_of(h),
        None => return None,
    };
    let name = chars_of(cookie_name);
    let n = raw.len();
    let mut start: usize = 0;
    assert(raw@.skip(0) =~= raw@);
    loop
        invariant
            0 <= start <= n == raw.len(),
            name@ == cookie_name@,
            opt_chars(cookie_header) == Some(raw@),
            cookie_in(raw@, name@) == cookie_in(raw@.skip(start as int), name@),
        decreases n - start,
    {
        let end = find_char_from(&raw, start, ';');
        let part = trimmed(&slice_chars(&raw, start, end));
        let ghost rest = raw@.skip(start as int);
        assert(before(rest, ';') == raw@.subrange(start as int, end as int));
        assert(part@ == trim(before(rest, ';')));
        let found = cookie_pair_value(&part, &name);
        assert(cookie_in(rest, name@) == if pair_value(part@, name@) is Some {
            pair_value(part@, name@)
        } else if before(rest, ';').len() < rest.len() {
            cookie_in(rest.skip(before(rest, ';').len() as int + 1), name@)
        } else {
            None
        });
        match found {
            Some(v) => {
                return Some(string_of(&v));
            },
            None => {},
        }
        if end < n {
            assert(rest.skip((end - start) + 1) =~= raw@.skip(end + 1));
            start = end + 1;
        } else {
            return None;
        }
    }
}

/// The name/value pairs of a query string, decoded as an HTML form encodes
/// them.
pub uninterp spec fn form_pairs_of(query: Seq<char>) -> Seq<(Seq<char>, Seq<char>)>;

/// The characters of each pair of strings.
pub open spec fn pairs_view(v: Seq<(String, String)>) -> Seq<(Seq<char>, Seq<char>)> {
    v.map_values(|p: (String, String)| (p.0@, p.1@))
}

/// Relies on `url::form_urlencoded::parse`: the pairs of the query, each
/// percent-decoded, in the order they appear; an empty query has none.
#[verifier::external_body]
fn form_pairs(query: &str) -> (r: Vec<(String, String)>)
    ensures
        pairs_view(r@) == form_pairs_of(query@),
        query@.len() == 0 ==> r@.len() == 0,
{
    url::form_urlencoded::parse(query.as_bytes()).into_owned().collect()
}

pub open spec fn token_param() -> Seq<char> {
    seq!['t', 'o', 'k', 'e', 'n']
}

/// The value of the first pair named `token`, unless that value is empty.
pub open spec fn token_in(pairs: Seq<(Seq<char>, Seq<char>)>) -> Option<Seq<char>>
    decreases pairs.len(),
{
    if pairs.len() == 0 {
        None
    } else if pairs[0].0 == token_param() {
        if pairs[0].1.len() > 0 {
            Some(pairs[0].1)
        } else {
            None
        }
    } else {
        token_in(pairs.drop_first())
    }
}

/// The `token` parameter among decoded query pairs: the first pair with that
/// name decides, and an empty value counts as none.
pub fn token_from_pairs(pairs: &Vec<(String, String)>) -> (r: Option<String>)
    ensures
        opt_string_chars(r) == token_in(pairs_view(pairs@)),
{
    proof {
        reveal_strlit("token");
        assert("token"@ =~= token_param());
    }
    let key = chars_of("token");
    let mut i: usize = 0;
    assert(pairs_view(pairs@).skip(0) =~= pairs_view(pairs@));
    while i < pairs.len()
        invariant
            0 <= i <= pairs.len(),
            key@ == token_param(),
            token_in(pairs_view(pairs@)) == token_in(pairs_view(pairs@).skip(i as int)),
        decreases pairs.len() - i,
    {
        let ghost rest = pairs_view(pairs@).skip(i as int);
        assert(rest[0] == (pairs@[i as int].0@, pairs@[i as int].1@));
        if chars_equal(&chars_of(pairs[i].0.as_str()), &key) {
            if !pairs[i].1.as_str().is_empty() {
                return Some(pairs[i].1.clone());
            } else {
                assert(pairs@[i as int].1@.len() == 0);
                return None;
            }
        }
        assert(rest.drop_first() =~= pairs_view(pairs@).skip(i + 1));
        i = i + 1;
    }
    None
}

/// The `token` query parameter, where the request has a query.
pub fn get_query_token(query: Option<&str>) -> (r: Option<String>)
    ensures
        opt_string_chars(r) == match query {
            Some(q) => token_in(form_pairs_of(q@)),
            None => None,
        },
{
    match query {
        Some(q) => token_from_pairs(&form_pairs(q)),
        None => None,
    }
}

} // verus!

verus! {

// ---------------------------------------------------------------------------
// Principals and the resolution of a request's credential
/// The claims of a session token whose signature and expiry were checked.
#[derive(Debug, Clone, PartialEq, Eq)]
pub struct Claims {
    /// The user the token was issued to.
    pub sub: i64,
    pub exp: usize,
    pub iat: usize,
    pub pub_key: Option<String>,
    /// The session the token belongs to.
    pub sid: Option<String>,
    /// The token's own identifier.
    pub jti: Option<String>,
}

/// Failures of token and password handling.
#[derive(Debug, Clone, PartialEq, Eq)]
pub enum AuthError {
    InvalidCredentials,
    TokenExpired,
    InvalidToken,
    RegistrationDisabled,
    Internal(String),
}

impl AuthError {
    pub open spec fn spec_message(&self) -> Seq<char> {
        match self {
            AuthError::InvalidCredentials => "invalid credentials"@,
            AuthError::TokenExpired => "token expired"@,
            AuthError::InvalidToken => "invalid token"@,
            AuthError::RegistrationDisabled => "registration disabled"@,
            AuthError::Internal(m) => "internal error: "@ + m@,
        }
    }

    /// The human-readable description of the failure.
    pub fn message(&self) -> (r: String)
        ensures
            r@ == self.spec_message(),
    {
        match self {
            AuthError::InvalidCredentials => String::from_str("invalid credentials"),
            AuthError::TokenExpired => String::from_str("token expired"),
            AuthError::InvalidToken => String::from_str("invalid token"),
            AuthError::RegistrationDisabled => String::from_str("registration disabled"),
            AuthError::Internal(m) => {
                let mut out: Vec<char> = Vec::new();
                crate::text::push_str(&mut out, "internal error: ");
                crate::text::push_str(&mut out, m.as_str());
                string_of(&out)
            },
        }
    }
}

/// An authenticated principal: a human session (with its session and token
/// identifiers) or a bot application (with neither).
#[derive(Debug, Clone, PartialEq, Eq)]
pub struct AuthUser {
    pub user_id: i64,
    pub session_id: Option<String>,
    pub token_jti: Option<String>,
}

/// A principal resolved from a human session whose user is an administrator.
#[derive(Debug, Clone, Copy, PartialEq, Eq, Structural)]
pub struct AdminUser {
    pub user_id: i64,
}

/// What a request offers for authentication: its `Authorization` and
/// `Cookie` header values and its query string.
#[derive(Debug, Clone, PartialEq, Eq)]
pub struct RequestCredentials {
    pub authorization: Option<String>,
    pub cookie: Option<String>,
    pub query: Option<String>,
}

/// The cookie that carries the access token.
pub open spec fn access_cookie_name() -> Seq<char> {
    seq!['p', 'a', 'r', 'a', 'c', 'o', 'r', 'd', '_', 'a', 'c', 'c', 'e', 's', 's']
}

pub open spec fn authorization_of(req: RequestCredentials) -> Option<Seq<char>> {
    opt_string_chars(req.authorization)
}

/// The access token in the request's session cookie, if any.
pub open spec fn session_cookie_of(req: RequestCredentials) -> Option<Seq<char>> {
    match req.cookie {
        Some(c) => cookie_in(c@, access_cookie_name()),
        None => None,
    }
}

/// The non-empty `token` query parameter, if any.
pub open spec fn query_token_of(req: RequestCredentials) -> Option<Seq<char>> {
    match req.query {
        Some(q) => token_in(form_pairs_of(q@)),
        None => None,
    }
}

/// The session token a request presents: the bearer header, else the
/// session cookie, else the `token` query parameter. The first present form
/// is the one used.
pub open spec fn session_token_of(req: RequestCredentials) -> Option<Seq<char>> {
    match bearer_token_of(authorization_of(req)) {
        Some(t) => Some(t),
        None => match session_cookie_of(req) {
            Some(t) => Some(t),
            None => query_token_of(req),
        },
    }
}

/// The session token the request presents, by the order above.
pub fn session_token(req: &RequestCredentials) -> (r: Option<String>)
    ensures
        opt_string_chars(r) == session_token_of(*req),
{
    let auth = match &req.authorization {
        Some(a) => Some(a.as_str()),
        None => None,
    };
    match extract_auth_scheme(auth) {
        Some(AuthScheme::Bearer(t)) => return Some(t),
        _ => {},
    }
    proof {
        reveal_strlit("paracord_access");
        assert("paracord_access"@ =~= access_cookie_name());
    }
    let cookie = match &req.cookie {
        Some(c) => get_cookie_value(Some(c.as_str()), "paracord_access"),
        None => None,
    };
    if cookie.is_some() {
        return cookie;
    }
    match &req.query {
        Some(q) => get_query_token(Some(q.as_str())),
        None => None,
    }
}

/// The bot token the request presents, if its `Authorization` header uses
/// the bot scheme.
pub fn bot_token(req: &RequestCredentials) -> (r: Option<String>)
    ensures
        opt_string_chars(r) == bot_token_of(authorization_of(*req)),
{
    let auth = match &req.authorization {
        Some(a) => Some(a.as_str()),
        None => None,
    };
    match extract_auth_scheme(auth) {
        Some(AuthScheme::Bot(t)) => Some(t),
        _ => None,
    }
}

/// The session a validated token names, to be checked for revocation.
#[derive(Debug, Clone, PartialEq, Eq)]
pub struct SessionKey {
    pub user_id: i64,
    pub session_id: String,
    pub token_id: String,
}

/// Which principal is asked for: any user (a human session, else a bot
/// application) or an administrator (a human session only).
#[derive(Debug, Clone, Copy, PartialEq, Eq, Structural)]
pub enum AuthMode {
    User,
    Admin,
}

/// A lookup in the credential store failed.
#[derive(Debug, Clone, Copy, PartialEq, Eq, Structural)]
pub struct LookupFailed;

/// What the caller does next to resolve a credential.
#[derive(Debug, PartialEq, Eq)]
pub enum AuthAction {
    /// Validate the token's signature and expiry against the server secret.
    ValidateToken(String),
    /// Ask whether the session is active now.
    CheckSession(SessionKey),
    /// Hash the bot token and look up the application it belongs to.
    LookupBot(String),
    /// Look up whether the user's stored flags carry the administrator
    /// capability.
    LookupAdmin(i64),
    /// Resolution of a user is over.
    User(Result<AuthUser, ApiError>),
    /// Resolution of an administrator is over.
    Admin(Result<AdminUser, ApiError>),
}

/// The outcome of the action the caller performed.
#[derive(Debug, PartialEq, Eq)]
pub enum AuthEvent {
    TokenValidated(Result<Claims, AuthError>),
    SessionChecked(Result<bool, LookupFailed>),
    /// The user bound to the bot token's application, if any.
    BotLookedUp(Result<Option<i64>, LookupFailed>),
    /// Whether the user is an administrator (`None`: no such user).
    AdminLookedUp(Result<Option<bool>, LookupFailed>),
}

/// The outcome the resolution waits for.
#[derive(Debug, Clone, Copy, PartialEq, Eq, Structural)]
pub enum Pending {
    Token,
    Session,
    Bot,
    Admin,
    Done,
}

/// The state of one credential resolution.
#[derive(Debug, Clone, PartialEq, Eq)]
pub struct CredentialCheck {
    pub mode: AuthMode,
    /// The bot token, kept for the fallback of a user resolution.
    pub bot_token: Option<String>,
    /// The session being checked, once a token was validated.
    pub session: Option<SessionKey>,
    pub pending: Pending,
}

/// Where the human-session path failed with `e`: a user resolution falls
/// back to the bot token, if there is one, and is otherwise unauthorized; an
/// administrator resolution ends with `e`.
pub open spec fn fallback(c: CredentialCheck, e: ApiError) -> (CredentialCheck, AuthAction) {
    match c.mode {
        AuthMode::User => match c.bot_token {
            Some(t) => (CredentialCheck { pending: Pending::Bot, ..c }, AuthAction::LookupBot(t)),
            None => (
                CredentialCheck { pending: Pending::Done, ..c },
                AuthAction::User(Err(ApiError::Unauthorized)),
            ),
        },
        AuthMode::Admin => (
            CredentialCheck { pending: Pending::Done, ..c },
            AuthAction::Admin(Err(e)),
        ),
    }
}

/// Whether `ev` is the outcome `c` waits for.
pub open spec fn expects(c: CredentialCheck, ev: AuthEvent) -> bool {
    match (c.pending, ev) {
        (Pending::Token, AuthEvent::TokenValidated(_)) => true,
        (Pending::Session, AuthEvent::SessionChecked(_)) => c.session is Some,
        (Pending::Bot, AuthEvent::BotLookedUp(_)) => true,
        (Pending::Admin, AuthEvent::AdminLookedUp(_)) => c.session is Some,
        _ => false,
    }
}

/// The next state and action after `ev`. A token that fails validation, or
/// lacks its session or token identifier, is unauthorized; so is an inactive
/// session, while a failed revocation lookup is an internal error. A bot
/// principal has no session. An administrator needs the capability flag.
pub open spec fn next_of(c: CredentialCheck, ev: AuthEvent) -> (CredentialCheck, AuthAction) {
    match ev {
        AuthEvent::TokenValidated(r) => match r {
            Ok(claims) => match (claims.sid, claims.jti) {
                (Some(sid), Some(jti)) => {
                    let key = SessionKey { user_id: claims.sub, session_id: sid, token_id: jti };
                    (
                        CredentialCheck { session: Some(key), pending: Pending::Session, ..c },
                        AuthAction::CheckSession(key),
                    )
                },
                _ => fallback(c, ApiError::Unauthorized),
            },
            Err(_) => fallback(c, ApiError::Unauthorized),
        },
        AuthEvent::SessionChecked(r) => {
            let key = c.session->Some_0;
            match r {
                Ok(true) => match c.mode {
                    AuthMode::User => (
                        CredentialCheck { pending: Pending::Done, ..c },
                        AuthAction::User(
                            Ok(
                                AuthUser {
                                    user_id: key.user_id,
                                    session_id: Some(key.session_id),
                                    token_jti: Some(key.token_id),
                                },
                            ),
                        ),
                    ),
                    AuthMode::Admin => (
                        CredentialCheck { pending: Pending::Admin, ..c },
                        AuthAction::LookupAdmin(key.user_id),
                    ),
                },
                Ok(false) => fallback(c, ApiError::Unauthorized),
                Err(_) => fallback(c, ApiError::Internal),
            }
        },
        AuthEvent::BotLookedUp(r) => (
            CredentialCheck { pending: Pending::Done, ..c },
            AuthAction::User(
                match r {
                    Ok(Some(id)) => Ok(AuthUser { user_id: id, session_id: None, token_jti: None }),
                    _ => Err(ApiError::Unauthorized),
                },
            ),
        ),
        AuthEvent::AdminLookedUp(r) => (
            CredentialCheck { pending: Pending::Done, ..c },
            AuthAction::Admin(
                match r {
                    Ok(Some(true)) => Ok(AdminUser { user_id: c.session->Some_0.user_id }),
                    Ok(Some(false)) => Err(ApiError::Forbidden),
                    Ok(None) => Err(ApiError::Unauthorized),
                    Err(_) => Err(ApiError::Internal),
                },
            ),
        ),
    }
}

/// Whether `r` is how the resolution of `req` in `mode` begins: with the
/// session token the request presents, else as the session path's failure.
pub open spec fn starts(req: RequestCredentials, mode: AuthMode, r: (CredentialCheck, AuthAction)) -> bool {
    &&& r.0.mode == mode
    &&& r.0.session is None
    &&& opt_string_chars(r.0.bot_token) == match mode {
        AuthMode::User => bot_token_of(authorization_of(req)),
        AuthMode::Admin => None,
    }
    &&& match session_token_of(req) {
        Some(t) => r.0.pending == Pending::Token && match r.1 {
            AuthAction::ValidateToken(s) => s@ == t,
            _ => false,
        },
        None => r == fallback(r.0, ApiError::Unauthorized),
    }
}

fn fallback_exec(c: CredentialCheck, e: ApiError) -> (r: (CredentialCheck, AuthAction))
    ensures
        r == fallback(c, e),
{
    match c.mode {
        AuthMode::User => match c.bot_token {
            Some(t) => {
                let t2 = t.clone();
                (
                    CredentialCheck { mode: c.mode, bot_token: Some(t), session: c.session, pending: Pending::Bot },
                    AuthAction::LookupBot(t2),
                )
            },
            None => (
                CredentialCheck { mode: c.mode, bot_token: None, session: c.session, pending: Pending::Done },
                AuthAction::User(Err(ApiError::Unauthorized)),
            ),
        },
        AuthMode::Admin => (
            CredentialCheck { mode: c.mode, bot_token: c.bot_token, session: c.session, pending: Pending::Done },
            AuthAction::Admin(Err(e)),
        ),
    }
}

impl CredentialCheck {
    /// Begins resolving the credential of `req`.
    pub fn start(req: &RequestCredentials, mode: AuthMode) -> (r: (CredentialCheck, AuthAction))
        ensures
            starts(*req, mode, r),
    {
        let bot_token = match mode {
            AuthMode::User => bot_token(req),
            AuthMode::Admin => None,
        };
        let c = CredentialCheck { mode, bot_token, session: None, pending: Pending::Token };
        match session_token(req) {
            Some(t) => (c, AuthAction::ValidateToken(t)),
            None => fallback_exec(c, ApiError::Unauthorized),
        }
    }

    /// Takes in the outcome of the last action and gives the next one.
    pub fn step(&mut self, ev: AuthEvent) -> (r: AuthAction)
        requires
            expects(*old(self), ev),
        ensures
            (*final(self), r) == next_of(*old(self), ev),
    {
        let c = self.clone_state();
        let (n, a) = match ev {
            AuthEvent::TokenValidated(r) => match r {
                Ok(claims) => match (claims.sid, claims.jti) {
                    (Some(sid), Some(jti)) => {
                        let key = SessionKey { user_id: claims.sub, session_id: sid, token_id: jti };
                        let key2 = key.clone_key();
                        (
                            CredentialCheck { mode: c.mode, bot_token: c.bot_token, session: Some(key), pending: Pending::Session },
                            AuthAction::CheckSession(key2),
                        )
                    },
                    _ => fallback_exec(c, ApiError::Unauthorized),
                },
                Err(_) => fallback_exec(c, ApiError::Unauthorized),
            },
            AuthEvent::SessionChecked(r) => match r {
                Ok(true) => {
                    let key = match &c.session {
                        Some(k) => k.clone_key(),
                        None => unreached(),
                    };
                    match c.mode {
                        AuthMode::User => (
                            CredentialCheck { mode: c.mode, bot_token: c.bot_token, session: c.session, pending: Pending::Done },
                            AuthAction::User(
                                Ok(
                                    AuthUser {
                                        user_id: key.user_id,
                                        session_id: Some(key.session_id),
                                        token_jti: Some(key.token_id),
                                    },
                                ),
                            ),
                        ),
                        AuthMode::Admin => (
                            CredentialCheck { mode: c.mode, bot_token: c.bot_token, session: c.session, pending: Pending::Admin },
                            AuthAction::LookupAdmin(key.user_id),
                        ),
                    }
                },
                Ok(false) => fallback_exec(c, ApiError::Unauthorized),
                Err(_) => fallback_exec(c, ApiError::Internal),
            },
            AuthEvent::BotLookedUp(r) => {
                let res = match r {
                    Ok(Some(id)) => Ok(AuthUser { user_id: id, session_id: None, token_jti: None }),
                    _ => Err(ApiError::Unauthorized),
                };
                (
                    CredentialCheck { mode: c.mode, bot_token: c.bot_token, session: c.session, pending: Pending::Done },
                    AuthAction::User(res),
                )
            },
            AuthEvent::AdminLookedUp(r) => {
                let user_id = match &c.session {
                    Some(k) => k.user_id,
                    None => unreached(),
                };
                let res = match r {
                    Ok(Some(true)) => Ok(AdminUser { user_id }),
                    Ok(Some(false)) => Err(ApiError::Forbidden),
                    Ok(None) => Err(ApiError::Unauthorized),
                    Err(_) => Err(ApiError::Internal),
                };
                (
                    CredentialCheck { mode: c.mode, bot_token: c.bot_token, session: c.session, pending: Pending::Done },
                    AuthAction::Admin(res),
                )
            },
        };
        *self = n;
        a
    }

    fn clone_state(&self) -> (r: CredentialCheck)
        ensures
            r == *self,
    {
        CredentialCheck {
            mode: self.mode,
            bot_token: match &self.bot_token {
                Some(t) => Some(t.clone()),
                None => None,
            },
            session: match &self.session {
                Some(k) => Some(k.clone_key()),
                None => None,
            },
            pending: self.pending,
        }
    }
}

impl SessionKey {
    fn clone_key(&self) -> (r: SessionKey)
        ensures
            r == *self,
    {
        SessionKey {
            user_id: self.user_id,
            session_id: self.session_id.clone(),
            token_id: self.token_id.clone(),
        }
    }
}

} // verus!

verus! {

/// A user resolution for a request that presents no bearer header, no
/// session cookie, no `token` query parameter and no bot token ends at once
/// as unauthorized.
pub proof fn lemma_no_credential_unauthorized(req: RequestCredentials, r: (CredentialCheck, AuthAction))
    requires
        bearer_token_of(authorization_of(req)) is None,
        session_cookie_of(req) is None,
        query_token_of(req) is None,
        bot_token_of(authorization_of(req)) is None,
        starts(req, AuthMode::User, r),
    ensures
        r.1 == AuthAction::User(Err(ApiError::Unauthorized)),
        r.0.pending == Pending::Done,
{
}

/// Where a bearer header is present its token is the one validated, whatever
/// cookie or query parameter the request also carries; if that token fails
/// validation the request is unauthorized, and no other credential is tried.
pub proof fn lemma_bearer_header_decides(
    req: RequestCredentials,
    r: (CredentialCheck, AuthAction),
    e: AuthError,
)
    requires
        bearer_token_of(authorization_of(req)) is Some,
        starts(req, AuthMode::User, r),
    ensures
        match r.1 {
            AuthAction::ValidateToken(t) => Some(t@) == bearer_token_of(authorization_of(req)),
            _ => false,
        },
        next_of(r.0, AuthEvent::TokenValidated(Err(e))).1 == AuthAction::User(
            Err(ApiError::Unauthorized),
        ),
        next_of(r.0, AuthEvent::TokenValidated(Err(e))).0.pending == Pending::Done,
{
}

} // verus!
