//! Authentication and authorization: token extraction from the three
//! carriers, the shared guard that HTTP middleware and WebSocket
//! handlers both apply, token issuance, and cookie construction.
//!
//! Signature checking itself is the JWT library's work; everything
//! decided on what it hands back — expiry, user resolution, role —
//! is verified here.

use crate::model::AuthResponse;
use crate::model::AuthUser;
use crate::model::Claims;
use crate::model::GatewayError;
use crate::model::RegisterRequest;
use crate::model::User;
use crate::model::UserInfo;
use crate::model::UserRole;
use crate::strutil::dec_rep;
use crate::strutil::split_chars;
use crate::strutil::split_str;
use crate::strutil::str_strip_prefix;
use crate::strutil::trim;
use crate::strutil::trim_spec;
use crate::strutil::u64_to_string;
use vstd::prelude::*;
use vstd::string::StrSliceExecFns;
use vstd::string::StringExecFns;

verus! {

// --- trusted crypto ---
/// The token `jsonwebtoken::encode` produces for these claims under
/// this secret: a pure function of its arguments.
pub uninterp spec fn jwt_of(sub: Seq<char>, iat: u64, exp: u64, secret: Seq<u8>) -> Seq<char>;

/// Whether `argon2`'s PHC-string parser accepts this hash text.
pub uninterp spec fn phc_parses(hash: Seq<char>) -> bool;

/// Whether `argon2` verifies this password against this hash: a pure
/// function of the two.
pub uninterp spec fn argon2_accepts(password: Seq<char>, hash: Seq<char>) -> bool;

/// Relies on `jsonwebtoken::encode` with the default header (HS256):
/// the token is a function of the claims and the secret alone, and
/// for HS256 over a raw secret the call cannot fail — the key family
/// matches the header's, HMAC signing is total, and serializing
/// these claims cannot error.
#[verifier::external_body]
fn encode_claims(sub: &str, iat: u64, exp: u64, secret: &[u8]) -> (r: Option<String>)
    ensures
        r is Some,
        r matches Some(t) ==> t@ == jwt_of(sub@, iat, exp, secret@),
{
    let mut claims = serde_json::Map::new();
    claims.insert("sub".to_string(), serde_json::Value::from(sub));
    claims.insert("iat".to_string(), serde_json::Value::from(iat));
    claims.insert("exp".to_string(), serde_json::Value::from(exp));
    let key = jsonwebtoken::EncodingKey::from_secret(secret);
    let header = jsonwebtoken::Header::default();
    jsonwebtoken::encode(&header, &serde_json::Value::Object(claims), &key).ok()
}

/// The `sub` string embedded in a token's payload, a function of the
/// token text alone.
pub uninterp spec fn jwt_sub_of(token: Seq<char>) -> Option<Seq<char>>;

/// The `exp` number embedded in a token's payload.
pub uninterp spec fn jwt_exp_of(token: Seq<char>) -> Option<u64>;

/// The `iat` number embedded in a token's payload.
pub uninterp spec fn jwt_iat_of(token: Seq<char>) -> Option<u64>;

/// Relies on `jsonwebtoken::decode` with `Validation::default()`:
/// HS256 signature check plus the library's own expiry vetting
/// against the real clock. Whether decoding succeeds depends on that
/// clock, so success is never promised; what a success carries is a
/// function of the token alone — its own embedded subject, expiry
/// and issue time (a missing `iat` reads as zero). `authorize`
/// enforces the gateway's expiry rule on what comes back.
#[verifier::external_body]
pub fn decode_token(token: &str, secret: &[u8]) -> (r: Option<Claims>)
    ensures
        r matches Some(c) ==> {
            &&& Some(c.sub@) == jwt_sub_of(token@)
            &&& Some(c.exp) == jwt_exp_of(token@)
            &&& c.iat == (match jwt_iat_of(token@) {
                Some(v) => v,
                None => 0u64,
            })
        },
{
    let key = jsonwebtoken::DecodingKey::from_secret(secret);
    let validation = jsonwebtoken::Validation::default();
    let data = jsonwebtoken::decode::<serde_json::Value>(token, &key, &validation).ok()?;
    let sub = data.claims.get("sub")?.as_str()?.to_string();
    let exp = data.claims.get("exp")?.as_u64()?;
    let iat = data.claims.get("iat").and_then(|v| v.as_u64()).unwrap_or(0);
    Some(Claims { sub, exp, iat })
}

/// Relies on `argon2::PasswordHash::new` (whether the stored hash is
/// well-formed PHC text) and `Argon2::verify_password` (whether the
/// password matches, a function of password and hash).
#[verifier::external_body]
fn check_password(password: &str, hash: &str) -> (r: Option<bool>)
    ensures
        r is Some <==> phc_parses(hash@),
        r matches Some(ok) ==> ok == argon2_accepts(password@, hash@),
{
    match argon2::PasswordHash::new(hash) {
        Err(_) => None,
        Ok(parsed) => {
            let hasher = argon2::Argon2::default();
            Some(argon2::PasswordVerifier::verify_password(&hasher, password.as_bytes(), &parsed).is_ok())
        },
    }
}

/// Relies on `Argon2::hash_password`: hashes under a freshly drawn
/// random salt, so which hash comes back is not promised (and the
/// random source may fail). Every hash that does come back is the
/// PHC text of a well-formed argon2 hash of exactly this password,
/// so it parses and verifies the password.
#[verifier::external_body]
fn hash_password_random(password: &str) -> (r: Option<String>)
    ensures
        r matches Some(h) ==> phc_parses(h@) && argon2_accepts(password@, h@),
{
    let hasher = argon2::Argon2::default();
    argon2::PasswordHasher::hash_password(&hasher, password.as_bytes()).ok().map(
        |h| h.to_string(),
    )
}

// --- token extraction ---
/// The token inside an `Authorization` header, when it is a bearer
/// header.
pub open spec fn bearer_token(h: Seq<char>) -> Option<Seq<char>> {
    if "Bearer "@.is_prefix_of(h) {
        Some(h.skip("Bearer "@.len() as int))
    } else {
        None
    }
}

pub fn extract_bearer(header: &str) -> (r: Option<String>)
    ensures
        r is Some <==> bearer_token(header@) is Some,
        r matches Some(t) ==> Some(t@) == bearer_token(header@),
{
    match str_strip_prefix(header, "Bearer ") {
        Some(rest) => {
            proof {
                assert(rest@ =~= header@.skip("Bearer "@.len() as int));
            }
            Some(String::from_str(rest))
        },
        None => None,
    }
}

/// The value after `key` in the first cookie-header part (split on
/// `;`, trimmed) that begins with `key`.
pub open spec fn cookie_after_key(parts: Seq<Seq<char>>, key: Seq<char>) -> Option<Seq<char>>
    decreases parts.len(),
{
    if parts.len() == 0 {
        None
    } else {
        let p = trim_spec(parts[0]);
        if key.is_prefix_of(p) {
            Some(p.skip(key.len() as int))
        } else {
            cookie_after_key(parts.skip(1), key)
        }
    }
}

/// The `access_token` cookie inside a `Cookie` header.
pub open spec fn cookie_token_spec(header: Seq<char>) -> Option<Seq<char>> {
    cookie_after_key(split_chars(header, ';'), "access_token="@)
}

pub fn cookie_access_token(header: &str) -> (r: Option<String>)
    ensures
        r is Some <==> cookie_token_spec(header@) is Some,
        r matches Some(t) ==> Some(t@) == cookie_token_spec(header@),
{
    let ghost key = "access_token="@;
    let ghost all = split_chars(header@, ';');
    let mut parts = split_str(header, ';');
    let ghost mut consumed: int = 0;
    proof {
        assert forall|k: int| 0 <= k < parts@.len() implies #[trigger] parts@[k]@ == all[k] by {
            assert(parts@.map_values(|t: String| t@)[k] == parts@[k]@);
        }
        assert(all.skip(0) =~= all);
    }
    while parts.len() > 0
        invariant
            0 <= consumed <= all.len(),
            consumed + parts@.len() == all.len(),
            forall|k: int| 0 <= k < parts@.len() ==> #[trigger] parts@[k]@ == all[consumed + k],
            cookie_after_key(all, key) == cookie_after_key(all.skip(consumed), key),
            key == "access_token="@,
            all == split_chars(header@, ';'),
        decreases parts@.len(),
    {
        let ghost prev = parts@;
        let part = parts.remove(0);
        proof {
            assert(forall|k: int| 0 <= k < parts@.len() ==> #[trigger] parts@[k] == prev[k + 1]);
            assert(prev[0]@ == all[consumed]);
            assert(all.skip(consumed)[0] == part@);
            assert(all.skip(consumed).skip(1) =~= all.skip(consumed + 1));
        }
        let trimmed = trim(part.as_str());
        match str_strip_prefix(trimmed, "access_token=") {
            Some(value) => {
                proof {
                    assert(all.skip(consumed).len() > 0);
                    assert(key.is_prefix_of(trim_spec(all.skip(consumed)[0])));
                    assert(value@ =~= trim_spec(part@).skip(key.len() as int));
                    assert(cookie_after_key(all.skip(consumed), key) == Some(
                        trim_spec(part@).skip(key.len() as int),
                    ));
                }
                return Some(String::from_str(value));
            },
            None => {
            },
        }
        proof {
            consumed = consumed + 1;
        }
    }
    proof {
        assert(all.skip(consumed) =~= Seq::<Seq<char>>::empty());
    }
    None
}

/// `o` when it holds non-empty text, else nothing.
pub open spec fn nonempty(o: Option<Seq<char>>) -> Option<Seq<char>> {
    match o {
        Some(s) => if s.len() > 0 {
            Some(s)
        } else {
            None
        },
        None => None,
    }
}

/// The token a WebSocket request authenticates with: the first
/// non-empty of the query `token`, the bearer `Authorization` header,
/// and the `access_token` cookie, in that order.
pub open spec fn ws_token_spec(
    query: Option<Seq<char>>,
    header: Option<Seq<char>>,
    cookie: Option<Seq<char>>,
) -> Option<Seq<char>> {
    if nonempty(query) is Some {
        nonempty(query)
    } else if nonempty(
        match header {
            Some(h) => bearer_token(h),
            None => None,
        },
    ) is Some {
        nonempty(
            match header {
                Some(h) => bearer_token(h),
                None => None,
            },
        )
    } else {
        nonempty(
            match cookie {
                Some(c) => cookie_token_spec(c),
                None => None,
            },
        )
    }
}

pub fn extract_ws_token(
    query_token: &Option<String>,
    auth_header: &Option<String>,
    cookie_header: &Option<String>,
) -> (r: Option<String>)
    ensures
        crate::strutil::opt_str_view(r) == ws_token_spec(
            crate::strutil::opt_str_view(*query_token),
            crate::strutil::opt_str_view(*auth_header),
            crate::strutil::opt_str_view(*cookie_header),
        ),
{
    match query_token {
        Some(q) => {
            if q.as_str().unicode_len() > 0 {
                return Some(q.clone());
            }
        },
        None => {
        },
    }
    match auth_header {
        Some(h) => {
            match extract_bearer(h.as_str()) {
                Some(t) => {
                    if t.as_str().unicode_len() > 0 {
                        return Some(t);
                    }
                },
                None => {
                },
            }
        },
        None => {
        },
    }
    match cookie_header {
        Some(c) => {
            match cookie_access_token(c.as_str()) {
                Some(t) => {
                    if t.as_str().unicode_len() > 0 {
                        return Some(t);
                    }
                },
                None => {
                },
            }
        },
        None => {
        },
    }
    None
}

/// The three carriers are interchangeable: whichever of them is the
/// first to hold a non-empty token decides, and the others are then
/// ignored.
pub proof fn lemma_ws_token_precedence(
    query: Option<Seq<char>>,
    header: Option<Seq<char>>,
    cookie: Option<Seq<char>>,
)
    ensures
        nonempty(query) is Some ==> ws_token_spec(query, header, cookie) == nonempty(query),
        nonempty(query) is None && header is Some && nonempty(bearer_token(header->0)) is Some
            ==> ws_token_spec(query, header, cookie) == nonempty(bearer_token(header->0)),
        nonempty(query) is None && (header is None || nonempty(bearer_token(header->0)) is None)
            && cookie is Some ==> ws_token_spec(query, header, cookie) == nonempty(
            cookie_token_spec(cookie->0),
        ),
        query is None && header is None && cookie is None ==> ws_token_spec(query, header, cookie)
            is None,
{
}

// --- the guard ---
/// What the guard decides for one request.
pub enum AuthOutcome {
    /// Attach this identity and continue.
    Granted(AuthUser),
    /// Answer 401.
    Unauthorized,
    /// Answer 403.
    Forbidden,
}

/// The guard's rule: no decodable claims, an expiry in the past, an
/// unresolvable subject, or a subject naming a different user is
/// rejected; a role below an admin-only gate is forbidden; everything
/// else passes with the resolved identity attached.
pub open spec fn spec_auth_decision(
    claims: Option<Claims>,
    user: Option<User>,
    now: u64,
    admin_only: bool,
) -> AuthOutcome {
    match claims {
        None => AuthOutcome::Unauthorized,
        Some(c) => if c.exp < now {
            AuthOutcome::Unauthorized
        } else {
            match user {
                None => AuthOutcome::Unauthorized,
                Some(u) => if u.username@ != c.sub@ {
                    AuthOutcome::Unauthorized
                } else if admin_only && u.role != UserRole::Admin {
                    AuthOutcome::Forbidden
                } else {
                    AuthOutcome::Granted(
                        AuthUser {
                            id: u.id,
                            username: u.username,
                            email: u.email,
                            role: u.role,
                        },
                    )
                },
            }
        },
    }
}

/// Decide one request from the decoded claims and the user row the
/// subject resolved to.
pub fn authorize(claims: Option<Claims>, user: Option<User>, now: u64, admin_only: bool) -> (r:
    AuthOutcome)
    ensures
        r == spec_auth_decision(claims, user, now, admin_only),
{
    let c = match claims {
        Some(c) => c,
        None => {
            return AuthOutcome::Unauthorized;
        },
    };
    if c.exp < now {
        return AuthOutcome::Unauthorized;
    }
    let u = match user {
        Some(u) => u,
        None => {
            return AuthOutcome::Unauthorized;
        },
    };
    if !crate::strutil::string_eq(&u.username, c.sub.as_str()) {
        return AuthOutcome::Unauthorized;
    }
    if admin_only && !matches!(u.role, UserRole::Admin) {
        return AuthOutcome::Forbidden;
    }
    AuthOutcome::Granted(AuthUser { id: u.id, username: u.username, email: u.email, role: u.role })
}

/// A token whose expiry has passed, and a subject that no longer
/// exists, are both rejected — before any role check.
pub proof fn lemma_auth_rejects_stale(
    claims: Option<Claims>,
    user: Option<User>,
    now: u64,
    admin_only: bool,
)
    ensures
        claims matches Some(c) && c.exp < now ==> spec_auth_decision(claims, user, now, admin_only)
            is Unauthorized,
        user is None ==> spec_auth_decision(claims, user, now, admin_only) is Unauthorized,
{
}

// --- issuance ---
/// A signed token for `username`, `minutes` of validity from `now`.
/// Issuance always succeeds: HS256 encoding cannot fail.
pub fn generate_token(username: &str, minutes: u64, secret: &[u8], now: u64) -> (r: String)
    requires
        now + minutes * 60 <= u64::MAX,
    ensures
        r@ == jwt_of(username@, now, (now + minutes * 60) as u64, secret@),
{
    let exp = now + minutes * 60;
    encode_claims(username, now, exp, secret).unwrap()
}

/// Evaluate one login attempt against the stored user row. A
/// matching password against a well-formed stored hash is owed its
/// tokens: issuance cannot fail, so the outcome is fixed for every
/// input class.
pub fn evaluate_login(user: Option<User>, password: &str, secret: &[u8], now: u64) -> (r: Result<
    AuthResponse,
    GatewayError,
>)
    requires
        now + 86400 <= u64::MAX,
    ensures
        r is Ok <==> (user matches Some(u) && phc_parses(u.password_hash@) && argon2_accepts(
            password@,
            u.password_hash@,
        )),
        user is None ==> r == Err::<AuthResponse, GatewayError>(GatewayError::Unauthenticated),
        user matches Some(u) ==> {
            &&& !phc_parses(u.password_hash@) ==> r == Err::<AuthResponse, GatewayError>(
                GatewayError::Upstream,
            )
            &&& phc_parses(u.password_hash@) && !argon2_accepts(password@, u.password_hash@) ==> r
                == Err::<AuthResponse, GatewayError>(GatewayError::Unauthenticated)
            &&& phc_parses(u.password_hash@) && argon2_accepts(password@, u.password_hash@) ==> (
            r matches Ok(a) && {
                &&& a.access_token@ == jwt_of(u.username@, now, (now + 3600) as u64, secret@)
                &&& a.refresh_token@ == jwt_of(u.username@, now, (now + 86400) as u64, secret@)
                &&& a.user.id == u.id
                &&& a.user.username == u.username
                &&& a.user.email == u.email
                &&& a.user.role == u.role
            })
        },
{
    let u = match user {
        Some(u) => u,
        None => {
            return Err(GatewayError::Unauthenticated);
        },
    };
    let ok = match check_password(password, u.password_hash.as_str()) {
        Some(ok) => ok,
        None => {
            return Err(GatewayError::Upstream);
        },
    };
    if !ok {
        return Err(GatewayError::Unauthenticated);
    }
    let access = generate_token(u.username.as_str(), 60, secret, now);
    let refresh = generate_token(u.username.as_str(), 24 * 60, secret, now);
    Ok(
        AuthResponse {
            access_token: access,
            refresh_token: refresh,
            user: UserInfo { id: u.id, username: u.username, email: u.email, role: u.role },
        },
    )
}

/// Evaluate one refresh: the decoded refresh-token claims must pass
/// the guard; a granted decision is owed its fresh token pair, since
/// issuance cannot fail.
pub fn evaluate_refresh(claims: Option<Claims>, user: Option<User>, secret: &[u8], now: u64) -> (r:
    Result<AuthResponse, GatewayError>)
    requires
        now + 86400 <= u64::MAX,
    ensures
        r is Ok <==> spec_auth_decision(claims, user, now, false) is Granted,
        spec_auth_decision(claims, user, now, false) is Unauthorized ==> r == Err::<
            AuthResponse,
            GatewayError,
        >(GatewayError::Unauthenticated),
        spec_auth_decision(claims, user, now, false) matches AuthOutcome::Granted(au) ==> (
        r matches Ok(a) && {
            &&& a.access_token@ == jwt_of(au.username@, now, (now + 3600) as u64, secret@)
            &&& a.refresh_token@ == jwt_of(au.username@, now, (now + 86400) as u64, secret@)
            &&& a.user.id == au.id
            &&& a.user.username == au.username
            &&& a.user.email == au.email
            &&& a.user.role == au.role
        }),
{
    let au = match authorize(claims, user, now, false) {
        AuthOutcome::Granted(au) => au,
        _ => {
            return Err(GatewayError::Unauthenticated);
        },
    };
    let access = generate_token(au.username.as_str(), 60, secret, now);
    let refresh = generate_token(au.username.as_str(), 24 * 60, secret, now);
    Ok(
        AuthResponse {
            access_token: access,
            refresh_token: refresh,
            user: UserInfo { id: au.id, username: au.username, email: au.email, role: au.role },
        },
    )
}

/// A new-user row ready to store; registration always takes the
/// plain `user` role.
pub struct NewUserPlan {
    pub username: String,
    pub email: String,
    pub password_hash: String,
    pub role: UserRole,
}

/// `None` only when drawing the random salt failed; every produced
/// plan stores a hash that parses and verifies the submitted
/// password.
pub fn plan_register(req: RegisterRequest) -> (r: Option<NewUserPlan>)
    ensures
        r matches Some(p) ==> {
            &&& p.username == req.username
            &&& p.email == req.email
            &&& p.role == UserRole::User
            &&& phc_parses(p.password_hash@)
            &&& argon2_accepts(req.password@, p.password_hash@)
        },
{
    let hash = match hash_password_random(req.password.as_str()) {
        Some(h) => h,
        None => {
            return None;
        },
    };
    Some(
        NewUserPlan {
            username: req.username,
            email: req.email,
            password_hash: hash,
            role: UserRole::User,
        },
    )
}

// --- cookies ---
/// How the auth cookies are shaped; read from the environment by the
/// surrounding process.
pub struct CookieSettings {
    pub secure: bool,
    pub same_site: String,
    pub domain: Option<String>,
}

/// One `Set-Cookie` value: `{name}={value}; HttpOnly[; Secure];
/// SameSite={s}; Path=/; Max-Age={n}[; Domain={d}]`.
pub open spec fn cookie_text(
    name: Seq<char>,
    value: Seq<char>,
    max_age: u64,
    s: &CookieSettings,
) -> Seq<char> {
    name + "="@ + value + "; HttpOnly"@ + (if s.secure {
        "; Secure"@
    } else {
        Seq::empty()
    }) + "; SameSite="@ + s.same_site@ + "; Path=/; Max-Age="@ + dec_rep(max_age as nat) + (
    match s.domain {
        Some(d) => "; Domain="@ + d@,
        None => Seq::empty(),
    })
}

pub fn build_cookie(name: &str, value: &str, max_age: u64, settings: &CookieSettings) -> (r:
    String)
    ensures
        r@ == cookie_text(name@, value@, max_age, settings),
{
    let mut out = String::from_str(name);
    out.append("=");
    out.append(value);
    out.append("; HttpOnly");
    if settings.secure {
        out.append("; Secure");
    }
    out.append("; SameSite=");
    out.append(settings.same_site.as_str());
    out.append("; Path=/; Max-Age=");
    let age = u64_to_string(max_age);
    out.append(age.as_str());
    match &settings.domain {
        Some(d) => {
            out.append("; Domain=");
            out.append(d.as_str());
        },
        None => {
        },
    }
    proof {
        assert(out@ =~= cookie_text(name@, value@, max_age, settings));
    }
    out
}

/// The pair of auth cookies set on login and refresh: the access
/// token for an hour, the refresh token for a day.
pub fn build_auth_cookies(access: &str, refresh: &str, settings: &CookieSettings) -> (r: (
    String,
    String,
))
    ensures
        r.0@ == cookie_text("access_token"@, access@, 3600, settings),
        r.1@ == cookie_text("refresh_token"@, refresh@, 86400, settings),
{
    (
        build_cookie("access_token", access, 3600, settings),
        build_cookie("refresh_token", refresh, 86400, settings),
    )
}

/// The pair that logout sets: both cookies emptied and expired at
/// once. Logout clears cookies only; no server-side session exists.
pub fn clear_auth_cookies(settings: &CookieSettings) -> (r: (String, String))
    ensures
        r.0@ == cookie_text("access_token"@, Seq::empty(), 0, settings),
        r.1@ == cookie_text("refresh_token"@, Seq::empty(), 0, settings),
{
    proof {
        reveal_strlit("");
    }
    (build_cookie("access_token", "", 0, settings), build_cookie("refresh_token", "", 0, settings))
}

} // verus!
