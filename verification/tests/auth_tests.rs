use vmgate::auth::{
    authorize, build_auth_cookies, build_cookie, clear_auth_cookies, cookie_access_token,
    decode_token, evaluate_login, evaluate_refresh, extract_bearer, extract_ws_token,
    generate_token, plan_register, AuthOutcome, CookieSettings,
};
use vmgate::model::{Claims, GatewayError, RegisterRequest, User, UserRole};

const SECRET: &[u8] = b"test-signing-secret";

// an epoch instant safely in the past of any test run
const PAST: u64 = 1_600_000_000;

fn now() -> u64 {
    std::time::SystemTime::now()
        .duration_since(std::time::UNIX_EPOCH)
        .unwrap()
        .as_secs()
}

fn user_with_hash(hash: String) -> User {
    User {
        id: String::from("3f2c1d00-aaaa-bbbb-cccc-000000000001"),
        username: String::from("admin"),
        email: String::from("admin@example.test"),
        password_hash: hash,
        role: UserRole::Admin,
        created_at: 0,
    }
}

fn registered_admin(password: &str) -> User {
    let plan = plan_register(RegisterRequest {
        username: String::from("admin"),
        email: String::from("admin@example.test"),
        password: String::from(password),
    })
    .expect("hashing must succeed");
    assert_eq!(plan.username, "admin");
    assert_eq!(plan.role, UserRole::User);
    let mut user = user_with_hash(plan.password_hash);
    user.role = UserRole::Admin;
    user
}

#[test]
fn login_issues_decodable_tokens_and_cookies() {
    let user = registered_admin("hunter2");
    let t = now();
    let resp = evaluate_login(Some(user), "hunter2", SECRET, t).expect("login must succeed");
    assert!(!resp.access_token.is_empty());
    assert!(!resp.refresh_token.is_empty());
    assert_eq!(resp.user.username, "admin");
    assert_eq!(resp.user.role, UserRole::Admin);

    let claims = decode_token(&resp.access_token, SECRET).expect("fresh token must decode");
    assert_eq!(claims.sub, "admin");
    assert_eq!(claims.iat, t);
    assert_eq!(claims.exp, t + 3600);
    let refresh = decode_token(&resp.refresh_token, SECRET).expect("fresh token must decode");
    assert_eq!(refresh.exp, t + 86400);

    let settings = CookieSettings { secure: true, same_site: String::from("None"), domain: None };
    let (access_cookie, refresh_cookie) =
        build_auth_cookies(&resp.access_token, &resp.refresh_token, &settings);
    assert!(access_cookie.starts_with("access_token="));
    assert!(access_cookie.ends_with("; HttpOnly; Secure; SameSite=None; Path=/; Max-Age=3600"));
    assert!(refresh_cookie.ends_with("; Max-Age=86400"));
}

#[test]
fn login_rejects_wrong_password_and_unknown_user() {
    let user = registered_admin("hunter2");
    assert!(matches!(
        evaluate_login(Some(user), "wrong", SECRET, now()),
        Err(GatewayError::Unauthenticated)
    ));
    assert!(matches!(
        evaluate_login(None, "hunter2", SECRET, now()),
        Err(GatewayError::Unauthenticated)
    ));
}

#[test]
fn login_with_undecipherable_stored_hash_is_internal() {
    let user = user_with_hash(String::from("not-a-phc-string"));
    let r = evaluate_login(Some(user), "hunter2", SECRET, now());
    assert!(matches!(r, Err(GatewayError::Upstream)));
}

#[test]
fn tampered_and_foreign_tokens_do_not_decode() {
    let t = now();
    let token = generate_token("admin", 60, SECRET, t);
    assert!(decode_token(&token, SECRET).is_some());
    assert!(decode_token(&token, b"other-secret").is_none());
    let mut forged = token.clone();
    forged.push('x');
    assert!(decode_token(&forged, SECRET).is_none());
    assert!(decode_token("not.a.token", SECRET).is_none());
}

#[test]
fn expired_tokens_are_rejected_with_unauthorized() {
    // the decoder itself refuses a long-expired signature
    let stale = generate_token("admin", 0, SECRET, PAST);
    assert!(decode_token(&stale, SECRET).is_none());

    // and the guard refuses claims whose exp lies before now, however
    // they were obtained
    let user = registered_admin("pw");
    let claims = Claims { sub: String::from("admin"), exp: PAST, iat: PAST };
    let r = authorize(Some(claims), Some(user), now(), false);
    assert!(matches!(r, AuthOutcome::Unauthorized));
}

#[test]
fn requests_without_usable_claims_are_rejected() {
    // a console request without any token never reaches the upstream:
    // no claims decode, the guard says 401
    let user = registered_admin("pw");
    let r = authorize(None, Some(user), now(), false);
    assert!(matches!(r, AuthOutcome::Unauthorized));
    assert_eq!(GatewayError::Unauthenticated.status_code(), 401);
}

#[test]
fn vanished_subjects_are_rejected_with_unauthorized() {
    let t = now();
    let claims = Claims { sub: String::from("admin"), exp: t + 100, iat: t };
    assert!(matches!(
        authorize(Some(claims), None, t, false),
        AuthOutcome::Unauthorized
    ));
    // a row for a different username does not pass either
    let mut other = registered_admin("pw");
    other.username = String::from("someone-else");
    let claims = Claims { sub: String::from("admin"), exp: t + 100, iat: t };
    assert!(matches!(
        authorize(Some(claims), Some(other), t, false),
        AuthOutcome::Unauthorized
    ));
}

#[test]
fn role_gate_forbids_plain_users() {
    let t = now();
    let mut user = registered_admin("pw");
    user.role = UserRole::User;
    let claims = Claims { sub: String::from("admin"), exp: t + 100, iat: t };
    assert!(matches!(
        authorize(Some(claims), Some(user), t, true),
        AuthOutcome::Forbidden
    ));

    let admin = registered_admin("pw");
    let claims = Claims { sub: String::from("admin"), exp: t + 100, iat: t };
    match authorize(Some(claims), Some(admin), t, true) {
        AuthOutcome::Granted(au) => {
            assert_eq!(au.username, "admin");
            assert_eq!(au.role, UserRole::Admin);
        },
        _ => panic!("admin must pass the admin gate"),
    }
}

#[test]
fn refresh_reissues_for_a_live_subject() {
    let t = now();
    let user = registered_admin("pw");
    let claims = Claims { sub: String::from("admin"), exp: t + 86400, iat: t };
    let resp = evaluate_refresh(Some(claims), Some(user), SECRET, t).expect("refresh succeeds");
    let decoded = decode_token(&resp.access_token, SECRET).unwrap();
    assert_eq!(decoded.sub, "admin");
    assert_eq!(decoded.exp, t + 3600);

    let stale = Claims { sub: String::from("admin"), exp: PAST, iat: PAST };
    let user2 = registered_admin("pw");
    assert!(matches!(
        evaluate_refresh(Some(stale), Some(user2), SECRET, t),
        Err(GatewayError::Unauthenticated)
    ));
}

#[test]
fn bearer_and_cookie_extraction() {
    assert_eq!(extract_bearer("Bearer abc.def").as_deref(), Some("abc.def"));
    assert!(extract_bearer("Basic abc").is_none());
    assert_eq!(
        cookie_access_token("theme=dark; access_token=tok123; other=1").as_deref(),
        Some("tok123")
    );
    assert!(cookie_access_token("theme=dark; refresh_token=x").is_none());
    assert_eq!(cookie_access_token("access_token=solo").as_deref(), Some("solo"));
}

#[test]
fn ws_token_precedence_is_query_then_header_then_cookie() {
    let q = Some(String::from("qtok"));
    let h = Some(String::from("Bearer htok"));
    let c = Some(String::from("access_token=ctok"));
    assert_eq!(extract_ws_token(&q, &h, &c).as_deref(), Some("qtok"));
    assert_eq!(extract_ws_token(&None, &h, &c).as_deref(), Some("htok"));
    assert_eq!(extract_ws_token(&None, &None, &c).as_deref(), Some("ctok"));
    // an empty carrier does not win: the next one is consulted
    let empty_q = Some(String::new());
    assert_eq!(extract_ws_token(&empty_q, &h, &c).as_deref(), Some("htok"));
    assert_eq!(extract_ws_token(&None, &None, &None), None);
}

#[test]
fn cookie_text_is_exact() {
    let settings = CookieSettings {
        secure: true,
        same_site: String::from("None"),
        domain: Some(String::from("example.test")),
    };
    assert_eq!(
        build_cookie("access_token", "tok", 3600, &settings),
        "access_token=tok; HttpOnly; Secure; SameSite=None; Path=/; Max-Age=3600; Domain=example.test"
    );
    let plain = CookieSettings { secure: false, same_site: String::from("Lax"), domain: None };
    assert_eq!(
        build_cookie("refresh_token", "r", 86400, &plain),
        "refresh_token=r; HttpOnly; SameSite=Lax; Path=/; Max-Age=86400"
    );
    let (a, r) = clear_auth_cookies(&plain);
    assert_eq!(a, "access_token=; HttpOnly; SameSite=Lax; Path=/; Max-Age=0");
    assert_eq!(r, "refresh_token=; HttpOnly; SameSite=Lax; Path=/; Max-Age=0");
}
