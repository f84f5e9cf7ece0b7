use vstd::prelude::*;
use crate::jwt::{Claims, ClaimsModel, jwt_claims, jwt_token_of, encode_claims, decode_claims};
use crate::model::{
    BackendError, Config, IbisContext, LocalUserView, Person, SuccessResponse, valid_time,
    find_user, first_by_name, has_username,
};
use crate::password::{fails_with, password_matches, validate_password};
use crate::text::has_prefix;

verus! {

/// Name of the session cookie.
pub const AUTH_COOKIE: &'static str = "auth";

/// How long a session token stays valid: 365 days.
pub const SESSION_VALIDITY_SECS: u64 = 31536000;

/// How long a session cookie is kept by the browser: 52 weeks.
pub const COOKIE_VALIDITY_SECS: i64 = 31449600;

/// A cookie as this core builds it, before it is written into a response.
#[derive(Debug)]
pub struct SessionCookie {
    pub name: String,
    pub value: String,
    /// The `Domain` attribute; absent for local hosts.
    pub domain: Option<String>,
    pub path: String,
    pub http_only: bool,
    pub secure: bool,
    /// `SameSite=Strict`.
    pub same_site_strict: bool,
    /// Expiry, seconds since the Unix epoch.
    pub expires: i64,
}

/// Reads the signing secret from the configuration.
pub fn read_jwt_secret(conf: &Config) -> (r: Result<String, BackendError>)
    ensures
        match conf.jwt_secret {
            Some(s) => r matches Ok(t) && t == s,
            None => fails_with(r, BackendError::MissingSecret),
        },
{
    match &conf.jwt_secret {
        Some(s) => Ok(s.clone()),
        None => Err(BackendError::MissingSecret),
    }
}

/// The claims of a session issued at `now` to `sub` by `iss`.
pub open spec fn session_claims(sub: Seq<char>, iss: Seq<char>, now: int) -> ClaimsModel {
    (sub, iss, now, now + SESSION_VALIDITY_SECS)
}

/// Mints a session token for `sub`, issued by this instance at `now` and
/// valid for `SESSION_VALIDITY_SECS`. The same subject, domain, secret and
/// time give the same token.
pub fn issue_token(sub: &str, conf: &Config, now: i64) -> (r: Result<String, BackendError>)
    requires
        valid_time(now),
    ensures
        match conf.jwt_secret {
            None => fails_with(r, BackendError::MissingSecret),
            Some(s) => r matches Ok(t) && session_token(t@, s@, sub@, conf.domain@, now as int),
        },
{
    let secret = read_jwt_secret(conf)?;
    let claims = Claims {
        sub: sub.to_string(),
        iss: conf.domain.clone(),
        iat: now,
        exp: now as u64 + SESSION_VALIDITY_SECS,
    };
    match encode_claims(&claims, secret.as_str()) {
        Some(t) => Ok(t),
        None => Err(BackendError::Internal),
    }
}

/// `t` is the session token issued at `now` to `sub` by `iss` under `secret`.
pub open spec fn session_token(
    t: Seq<char>,
    secret: Seq<char>,
    sub: Seq<char>,
    iss: Seq<char>,
    now: int,
) -> bool {
    &&& t == jwt_token_of(session_claims(sub, iss, now), secret)
    &&& jwt_claims(t, secret) == Some(session_claims(sub, iss, now))
}

/// Rejects claims whose expiry lies before `now`.
pub fn check_claims(c: &Claims, now: i64) -> (r: Result<(), BackendError>)
    ensures
        r is Ok <==> now as int <= c.exp as int,
        r is Err ==> fails_with(r, BackendError::InvalidToken),
{
    if now >= 0 && now as u64 > c.exp {
        return Err(BackendError::InvalidToken);
    }
    Ok(())
}

/// What `validate` returns: every failure to decode, to check the signature
/// or to be within the expiry is `InvalidToken`; a subject that names no
/// user is `UnknownSubject`.
pub open spec fn validate_post(
    ctx: IbisContext,
    jwt: Seq<char>,
    now: int,
    r: Result<LocalUserView, BackendError>,
) -> bool {
    match ctx.conf.jwt_secret {
        None => fails_with(r, BackendError::MissingSecret),
        Some(s) => match jwt_claims(jwt, s@) {
            None => fails_with(r, BackendError::InvalidToken),
            Some(c) => if now > c.3 {
                fails_with(r, BackendError::InvalidToken)
            } else {
                match find_user(ctx.users@, c.0) {
                    None => fails_with(r, BackendError::UnknownSubject),
                    Some(i) => r matches Ok(u) && u == ctx.users@[i],
                }
            },
        },
    }
}

/// Resolves a session token to the account it was issued to.
pub fn validate(jwt: &str, ctx: &IbisContext, now: i64) -> (r: Result<LocalUserView, BackendError>)
    ensures
        validate_post(*ctx, jwt@, now as int, r),
{
    let secret = read_jwt_secret(&ctx.conf)?;
    let claims = match decode_claims(jwt, secret.as_str()) {
        Some(c) => c,
        None => return Err(BackendError::InvalidToken),
    };
    check_claims(&claims, now)?;
    match ctx.find_user(claims.sub.as_str()) {
        Some(i) => Ok(ctx.users[i].duplicate()),
        None => Err(BackendError::UnknownSubject),
    }
}

/// Hosts on which a cookie must not carry a `Domain` attribute.
pub open spec fn is_local_host(domain: Seq<char>) -> bool {
    "localhost"@.is_prefix_of(domain) || "127.0.0.1"@.is_prefix_of(domain)
}

/// The attributes every session cookie of this instance carries.
pub open spec fn cookie_policy(c: SessionCookie, conf: Config, expires: int) -> bool {
    &&& c.name@ == AUTH_COOKIE@
    &&& c.domain == if is_local_host(conf.domain@) {
        None
    } else {
        Some(conf.domain)
    }
    &&& c.path@ == "/"@
    &&& c.http_only
    &&& c.same_site_strict
    &&& c.secure == conf.secure_cookies
    &&& c.expires == expires
}

/// Wraps a session token into the session cookie, kept for 52 weeks.
pub fn create_cookie(jwt: String, conf: &Config, now: i64) -> (r: SessionCookie)
    requires
        valid_time(now),
    ensures
        r.value@ == jwt@,
        cookie_policy(r, *conf, now + COOKIE_VALIDITY_SECS),
{
    let domain = if !has_prefix(conf.domain.as_str(), "localhost") && !has_prefix(
        conf.domain.as_str(),
        "127.0.0.1",
    ) {
        Some(conf.domain.clone())
    } else {
        None
    };
    SessionCookie {
        name: AUTH_COOKIE.to_string(),
        value: jwt,
        domain,
        path: "/".to_string(),
        http_only: true,
        secure: conf.secure_cookies,
        same_site_strict: true,
        expires: now + COOKIE_VALIDITY_SECS,
    }
}

/// The cookie that tells a browser to drop its session cookie: empty, and
/// expired a second ago.
pub fn removal_cookie(conf: &Config, now: i64) -> (r: SessionCookie)
    requires
        valid_time(now),
    ensures
        r.value@.len() == 0,
        cookie_policy(r, *conf, now - 1),
{
    let mut c = create_cookie(String::new(), conf, now);
    c.expires = now - 1;
    c
}

/// Ends a session; always succeeds.
pub fn logout_user(conf: &Config, now: i64) -> (r: (SessionCookie, SuccessResponse))
    requires
        valid_time(now),
    ensures
        r.0.value@.len() == 0,
        cookie_policy(r.0, *conf, now - 1),
        r.1.success,
{
    (removal_cookie(conf, now), SuccessResponse::ok())
}

/// Mints a session token for `person` and wraps it into a cookie.
fn add_login_cookie(person: &Person, conf: &Config, now: i64) -> (r: Result<SessionCookie, BackendError>)
    requires
        valid_time(now),
    ensures
        match conf.jwt_secret {
            None => fails_with(r, BackendError::MissingSecret),
            Some(s) => r matches Ok(c) && session_cookie_for(c, s@, person.username@, *conf, now as int),
        },
{
    let jwt = issue_token(person.username.as_str(), conf, now)?;
    Ok(create_cookie(jwt, conf, now))
}

/// `c` is a session cookie for `sub`, signed with `secret` at `now`.
pub open spec fn session_cookie_for(
    c: SessionCookie,
    secret: Seq<char>,
    sub: Seq<char>,
    conf: Config,
    now: int,
) -> bool {
    &&& session_token(c.value@, secret, sub, conf.domain@, now)
    &&& cookie_policy(c, conf, now + COOKIE_VALIDITY_SECS)
}

/// What `login_user` returns. An unverified email, where verification is
/// required, is reported before the password is looked at.
pub open spec fn login_post(
    ctx: IbisContext,
    ident: Seq<char>,
    password: Seq<char>,
    now: int,
    r: Result<(SessionCookie, LocalUserView), BackendError>,
) -> bool {
    match find_user(ctx.users@, ident) {
        None => fails_with(r, BackendError::InvalidLogin),
        Some(i) => {
            let u = ctx.users@[i];
            if ctx.conf.email_required && !u.local_user.email_verified {
                fails_with(r, BackendError::EmailNotVerified)
            } else if !password_matches(u, password) {
                fails_with(r, BackendError::InvalidLogin)
            } else {
                match ctx.conf.jwt_secret {
                    None => fails_with(r, BackendError::MissingSecret),
                    Some(s) => r matches Ok((c, v)) && v == u && session_cookie_for(
                        c,
                        s@,
                        u.person.username@,
                        ctx.conf,
                        now,
                    ),
                }
            }
        },
    }
}

/// Logs in with a username or email and a password, and hands back the
/// account with a fresh session cookie.
pub fn login_user(ctx: &IbisContext, username_or_email: &str, password: &str, now: i64) -> (r:
    Result<(SessionCookie, LocalUserView), BackendError>)
    requires
        valid_time(now),
    ensures
        login_post(*ctx, username_or_email@, password@, now as int, r),
{
    let i = match ctx.find_user(username_or_email) {
        Some(i) => i,
        None => return Err(BackendError::InvalidLogin),
    };
    let user = &ctx.users[i];
    if ctx.conf.email_required && !user.local_user.email_verified {
        return Err(BackendError::EmailNotVerified);
    }
    validate_password(user, password)?;
    let cookie = add_login_cookie(&user.person, &ctx.conf, now)?;
    Ok((cookie, user.duplicate()))
}

} // verus!

verus! {

/// In a well-formed context a username names exactly its own account.
proof fn lemma_username_resolves(ctx: IbisContext, i: int)
    requires
        ctx.wf(),
        0 <= i < ctx.users@.len(),
    ensures
        find_user(ctx.users@, ctx.users@[i].person.username@) == Some(i),
{
    reveal(IbisContext::wf);
    let users = ctx.users@;
    let name = users[i].person.username@;
    assert(has_username(users[i], name));
    assert forall|j: int| 0 <= j < i implies !has_username(#[trigger] users[j], name) by {
        assert(users[j].person.username@ != users[i].person.username@);
    }
    assert(0 <= i < users.len() && has_username(users[i], name) && forall|j: int|
        0 <= j < i ==> !has_username(#[trigger] users[j], name));
    let c = choose|c: int|
        0 <= c < users.len() && has_username(#[trigger] users[c], name) && forall|j: int|
            0 <= j < c ==> !has_username(#[trigger] users[j], name);
    if c < i {
        assert(users[c].person.username@ != users[i].person.username@);
    } else if c > i {
        assert(!has_username(users[i], name));
    }
    assert(first_by_name(users, name) == Some(i));
}

/// A session cookie handed out by a successful login resolves, for as long
/// as its token has not expired, to the very account that logged in.
pub proof fn law_login_then_validate(
    ctx: IbisContext,
    ident: Seq<char>,
    password: Seq<char>,
    now: int,
    later: int,
    login: Result<(SessionCookie, LocalUserView), BackendError>,
    resolved: Result<LocalUserView, BackendError>,
)
    requires
        ctx.wf(),
        login_post(ctx, ident, password, now, login),
        login is Ok,
        validate_post(ctx, login->Ok_0.0.value@, later, resolved),
        later <= now + SESSION_VALIDITY_SECS,
    ensures
        resolved matches Ok(u) && u == login->Ok_0.1,
{
    let i = find_user(ctx.users@, ident)->Some_0;
    let u = ctx.users@[i];
    let s = ctx.conf.jwt_secret->Some_0;
    let cookie = login->Ok_0.0;
    assert(login->Ok_0.1 == u);
    assert(session_token(cookie.value@, s@, u.person.username@, ctx.conf.domain@, now));
    lemma_username_resolves(ctx, i);
    assert(find_user(ctx.users@, u.person.username@) == Some(i));
}

/// Where verified email is required and the account named has not verified
/// its address, login fails with `EmailNotVerified` whatever password is
/// given, and no cookie is issued.
pub proof fn law_unverified_login_ignores_password(
    ctx: IbisContext,
    ident: Seq<char>,
    password: Seq<char>,
    now: int,
    r: Result<(SessionCookie, LocalUserView), BackendError>,
)
    requires
        login_post(ctx, ident, password, now, r),
        ctx.conf.email_required,
        find_user(ctx.users@, ident) matches Some(i) && !ctx.users@[i].local_user.email_verified,
    ensures
        fails_with(r, BackendError::EmailNotVerified),
{
}

/// Issuing a session token is deterministic: the same subject, domain,
/// secret and time give the same token.
pub proof fn law_issue_token_deterministic(
    conf: Config,
    sub: Seq<char>,
    now: int,
    t1: Seq<char>,
    t2: Seq<char>,
)
    requires
        conf.jwt_secret is Some,
        session_token(t1, conf.jwt_secret->Some_0@, sub, conf.domain@, now),
        session_token(t2, conf.jwt_secret->Some_0@, sub, conf.domain@, now),
    ensures
        t1 == t2,
{
}

/// A token whose expiry has passed is refused, whether or not its signature
/// checks out.
pub proof fn law_expired_token_rejected(
    ctx: IbisContext,
    jwt: Seq<char>,
    now: int,
    resolved: Result<LocalUserView, BackendError>,
)
    requires
        validate_post(ctx, jwt, now, resolved),
        ctx.conf.jwt_secret matches Some(s) ==> (jwt_claims(jwt, s@) matches Some(c) ==> c.3 < now),
    ensures
        resolved is Err,
{
}

} // verus!

verus! {

/// The public profile of the local user `name` on `domain`; accounts of
/// other instances are not known here. Private account data is never part
/// of the answer.
pub fn get_user(ctx: &IbisContext, name: &str, domain: &str) -> (r: Result<Person, BackendError>)
    ensures
        domain@ != ctx.conf.domain@ ==> fails_with(r, BackendError::NotFound),
        domain@ == ctx.conf.domain@ ==> match first_by_name(ctx.users@, name@) {
            None => fails_with(r, BackendError::NotFound),
            Some(i) => r matches Ok(p) && p == ctx.users@[i].person,
        },
{
    if !crate::text::same_text(domain, ctx.conf.domain.as_str()) {
        return Err(BackendError::NotFound);
    }
    match ctx.find_user_by_name(name) {
        Some(i) => Ok(ctx.users[i].person.duplicate()),
        None => Err(BackendError::NotFound),
    }
}

} // verus!
