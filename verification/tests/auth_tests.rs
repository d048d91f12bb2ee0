use poolcar::auth::{
    claims_from_read, create_token, decode_token, superuser_account, authenticate, check_login, login, login_page_after, token_claims, verify, AuthenticatedUser,
    Claims, LoginError, OfferedToken, StoredUser, UserRoleKind,
};
use poolcar::auth_utils::{
    admin_account, bearer_token, cookie_token, decode_jwt, encode_jwt, extract_token,
    hash_password, login_claims, login_token, request_token, session_claims_from_read,
    verify_password, LoginRequest,
    SessionClaims, UserAuth,
};
use poolcar::error::AppError;

fn stored(name: &str, password: &str, role: UserRoleKind) -> StoredUser {
    StoredUser { username: name.to_string(), password: password.to_string(), role }
}

#[test]
fn bearer_header_gives_its_token() {
    assert_eq!(bearer_token("Bearer abc.def"), Some("abc.def".to_string()));
    assert_eq!(bearer_token("Bearer "), Some(String::new()));
    assert_eq!(bearer_token("bearer abc"), None);
    assert_eq!(bearer_token("Basic abc"), None);
}

#[test]
fn cookie_header_gives_the_auth_token() {
    assert_eq!(cookie_token("auth_token=xyz"), Some("xyz".to_string()));
    assert_eq!(cookie_token("a=1;  auth_token=tok ; b=2"), Some("tok".to_string()));
    assert_eq!(cookie_token("a=1; b=2"), None);
    assert_eq!(cookie_token("auth_token=first; auth_token=second"), Some("first".to_string()));
    assert_eq!(cookie_token("xauth_token=1"), None);
}

#[test]
fn bearer_token_wins_over_cookie() {
    assert_eq!(
        extract_token(Some("Bearer from-header"), Some("auth_token=from-cookie")),
        Some("from-header".to_string())
    );
}

#[test]
fn cookie_is_the_fallback() {
    assert_eq!(
        extract_token(Some("Basic x"), Some("auth_token=from-cookie")),
        Some("from-cookie".to_string())
    );
    assert_eq!(extract_token(None, Some("auth_token=c")), Some("c".to_string()));
    assert_eq!(extract_token(None, None), None);
    assert_eq!(extract_token(Some("Token t"), None), None);
}

#[test]
fn a_request_without_token_is_refused() {
    assert!(matches!(request_token(None, Some("theme=dark")), Err(AppError::InvalidToken)));
    assert_eq!(request_token(Some("Bearer t1"), None).unwrap(), "t1");
}

#[test]
fn cookie_value_reads_back() {
    for t in ["", "abc", "a b", "eyJhbGciOi.x.y"] {
        let header = format!("auth_token={}", t);
        assert_eq!(cookie_token(&header), Some(t.to_string()));
    }
}

#[test]
fn argon2_hashes_verify_their_password_only() {
    let hash = hash_password("s3cret").expect("hashing works");
    assert!(hash.starts_with("$argon2"));
    assert!(verify_password("s3cret", &hash));
    assert!(!verify_password("wrong", &hash));
    assert!(!verify_password("s3cret", "not a phc string"));
}

#[test]
fn admin_account_stores_a_verifying_hash() {
    let a = admin_account(
        "admin".to_string(),
        "admin",
        "admin@example.com".to_string(),
        "Admin User".to_string(),
        1,
    )
    .expect("account");
    assert_eq!(a.username, "admin");
    assert_eq!(a.email, "admin@example.com");
    assert_eq!(a.full_name, "Admin User");
    assert_eq!(a.user_role_id, 1);
    assert_ne!(a.password_hash, "admin");
    assert!(verify_password("admin", &a.password_hash));
}

#[test]
fn api_sign_in_issues_one_hour_claims() {
    let hash = hash_password("pw").unwrap();
    let user = UserAuth {
        username: "budi".to_string(),
        password: hash,
        user_role_id: 2,
        user_role_name: "Security".to_string(),
    };
    let req = LoginRequest { username: "budi".to_string(), password: "pw".to_string() };
    let c = login_claims(Some(user), req, 1_700_000_000).unwrap();
    assert_eq!(c.username, "budi");
    assert_eq!(c.role_name, "Security");
    assert_eq!(c.exp, 1_700_003_600);
}

#[test]
fn api_sign_in_refusals() {
    let hash = hash_password("pw").unwrap();
    let user = UserAuth {
        username: "budi".to_string(),
        password: hash,
        user_role_id: 2,
        user_role_name: "Security".to_string(),
    };
    let wrong = LoginRequest { username: "budi".to_string(), password: "nope".to_string() };
    assert!(matches!(login_claims(Some(user), wrong, 0), Err(AppError::WrongCredentials)));
    let nobody = LoginRequest { username: "x".to_string(), password: "pw".to_string() };
    assert!(matches!(login_claims(None, nobody, 0), Err(AppError::WrongCredentials)));
}

#[test]
fn session_claims_last_a_day() {
    let c = token_claims("sari", "Admin", 1_700_000_000);
    assert_eq!(c.sub, "sari");
    assert_eq!(c.role, "Admin");
    assert_eq!(c.exp, 1_700_086_400);
}

#[test]
fn form_sign_in_outcomes() {
    let g = check_login(Some(stored("sari", "pw", UserRoleKind::Admin)), "pw").unwrap();
    assert_eq!(g.username, "sari");
    assert_eq!(g.role, "Admin");
    let g = check_login(Some(stored("joko", "pw", UserRoleKind::Security)), "pw").unwrap();
    assert_eq!(g.role, "Security");
    assert_eq!(
        check_login(Some(stored("sari", "pw", UserRoleKind::Admin)), "bad").err(),
        Some(LoginError::InvalidCredentials)
    );
    assert_eq!(check_login(None, "pw").err(), Some(LoginError::InvalidCredentials));
}

#[test]
fn employees_never_sign_in() {
    assert_eq!(
        check_login(Some(stored("eko", "pw", UserRoleKind::Employee)), "pw").err(),
        Some(LoginError::EmployeeCannotLogIn)
    );
    assert_eq!(
        check_login(Some(stored("eko", "pw", UserRoleKind::Employee)), "bad").err(),
        Some(LoginError::EmployeeCannotLogIn)
    );
}

#[test]
fn signed_in_roles_pass_the_session_check() {
    for role in [UserRoleKind::Admin, UserRoleKind::Security] {
        let g = check_login(Some(stored("u", "pw", role)), "pw").unwrap();
        let user = AuthenticatedUser { username: g.username, role: g.role, token: "t".to_string() };
        assert!(verify(Some(user)).is_ok());
    }
}

#[test]
fn sign_in_refusal_statuses_and_messages() {
    assert_eq!(LoginError::DatabaseError.status(), 500);
    assert_eq!(LoginError::DatabaseError.message(), "Database error");
    assert_eq!(LoginError::EmployeeCannotLogIn.status(), 403);
    assert_eq!(LoginError::EmployeeCannotLogIn.message(), "Employee users cannot log in");
    assert_eq!(LoginError::TokenGenerationFailed.status(), 500);
    assert_eq!(LoginError::TokenGenerationFailed.message(), "Token generation failed");
    assert_eq!(LoginError::InvalidCredentials.status(), 401);
    assert_eq!(LoginError::InvalidCredentials.message(), "Invalid username or password");
    assert_eq!(LoginError::SessionInvalid.status(), 401);
    assert_eq!(LoginError::SessionInvalid.message(), "Session expired or invalid");
}

#[test]
fn session_check() {
    let u = AuthenticatedUser {
        username: "sari".to_string(),
        role: "Admin".to_string(),
        token: "tok".to_string(),
    };
    let r = verify(Some(u)).unwrap();
    assert_eq!((r.token.as_str(), r.username.as_str(), r.role.as_str()), ("tok", "sari", "Admin"));
    let e = AuthenticatedUser {
        username: "eko".to_string(),
        role: "Employee".to_string(),
        token: "tok".to_string(),
    };
    assert_eq!(verify(Some(e)).err(), Some(LoginError::EmployeeCannotLogIn));
    assert_eq!(verify(None).err(), Some(LoginError::SessionInvalid));
}

#[test]
fn login_pages() {
    let t = login_page_after(LoginError::InvalidCredentials, "sari");
    assert_eq!(t.error.as_deref(), Some("Invalid username or password"));
    assert_eq!(t.username.as_deref(), Some("sari"));
    let t = login(Some("Session expired".to_string()));
    assert_eq!(t.error.as_deref(), Some("Session expired"));
    assert!(t.username.is_none());
}

fn offered(token: &str, valid: Option<(&str, &str)>) -> OfferedToken {
    OfferedToken {
        token: token.to_string(),
        claims: valid.map(|(sub, role)| Claims { sub: sub.to_string(), exp: 0, role: role.to_string() }),
    }
}

#[test]
fn authentication_prefers_a_valid_bearer_token() {
    let u = authenticate(
        Some(offered("b", Some(("sari", "Admin")))),
        Some(offered("c", Some(("joko", "Security")))),
    )
    .unwrap();
    assert_eq!((u.username.as_str(), u.role.as_str(), u.token.as_str()), ("sari", "Admin", "b"));
    let u = authenticate(Some(offered("b", None)), Some(offered("c", Some(("joko", "Security")))))
        .unwrap();
    assert_eq!((u.username.as_str(), u.token.as_str()), ("joko", "c"));
    assert!(authenticate(Some(offered("b", None)), Some(offered("c", None))).is_none());
    assert!(authenticate(None, None).is_none());
}

#[test]
fn superuser_set_up() {
    let a = superuser_account(false, "root".into(), "pw".into(), "r@x".into(), "Root".into()).unwrap();
    assert_eq!((a.username.as_str(), a.password.as_str(), a.email.as_str(), a.full_name.as_str()), ("root", "pw", "r@x", "Root"));
    assert_eq!(a.role, UserRoleKind::Admin);
    let e = superuser_account(true, "root".into(), "pw".into(), "r@x".into(), "Root".into()).err();
    assert_eq!(e.as_deref(), Some("User with username 'root' already exists"));
}

#[test]
fn session_tokens_read_back() {
    let now = chrono::Utc::now().timestamp();
    let t = create_token("sari", "Admin", b"secret", now).unwrap();
    assert_eq!(t.matches('.').count(), 2);
    let c = decode_token(&t, b"secret").unwrap();
    assert_eq!((c.sub.as_str(), c.role.as_str(), c.exp), ("sari", "Admin", (now + 86400) as usize));
    assert!(decode_token(&t, b"other").is_none());
    assert!(decode_token("not.a.token", b"secret").is_none());
}

#[test]
fn session_token_payload_keeps_claim_order() {
    let t = create_token("u", "Admin", b"k", 1_700_000_000).unwrap();
    let payload = t.split('.').nth(1).unwrap();
    assert_eq!(payload, "eyJzdWIiOiJ1IiwiZXhwIjoxNzAwMDg2NDAwLCJyb2xlIjoiQWRtaW4ifQ");
}

#[test]
fn expired_session_tokens_are_refused() {
    let t = create_token("sari", "Admin", b"secret", 1_000_000).unwrap();
    assert!(decode_token(&t, b"secret").is_none());
}

#[test]
fn api_tokens_read_back() {
    let exp = (chrono::Utc::now().timestamp() + 3600) as usize;
    let claims = SessionClaims { username: "budi".into(), role_name: "Security".into(), exp };
    let t = encode_jwt(claims, "jwt-secret").unwrap();
    let c = decode_jwt(&t, "jwt-secret").unwrap();
    assert_eq!((c.username.as_str(), c.role_name.as_str(), c.exp), ("budi", "Security", exp));
    assert!(matches!(decode_jwt(&t, "wrong"), Err(AppError::InvalidToken)));
    assert!(matches!(decode_jwt("garbage", "jwt-secret"), Err(AppError::InvalidToken)));
}

#[test]
fn api_sign_in_answers_with_a_token() {
    let hash = hash_password("pw").unwrap();
    let user = UserAuth { username: "budi".into(), password: hash, user_role_id: 2, user_role_name: "Security".into() };
    let now = chrono::Utc::now().timestamp();
    let req = LoginRequest { username: "budi".into(), password: "pw".into() };
    let t = login_token(Some(user), req, now, "s").unwrap();
    let c = decode_jwt(&t, "s").unwrap();
    assert_eq!((c.username.as_str(), c.role_name.as_str()), ("budi", "Security"));
    let req = LoginRequest { username: "x".into(), password: "pw".into() };
    assert!(matches!(login_token(None, req, now, "s"), Err(AppError::WrongCredentials)));
}

#[test]
fn plain_stored_passwords_never_verify() {
    assert!(!verify_password("plain", "plain"));
    assert!(!verify_password("", ""));
    let h = hash_password("").unwrap();
    assert!(h.starts_with('$'));
    assert!(verify_password("", &h));
}

#[test]
fn claims_from_what_was_read() {
    let c = claims_from_read(Some(("sari".to_string(), 1_700_086_400, "Admin".to_string()))).unwrap();
    assert_eq!((c.sub.as_str(), c.exp, c.role.as_str()), ("sari", 1_700_086_400usize, "Admin"));
    assert!(claims_from_read(None).is_none());
    let s = session_claims_from_read(Some(("budi".to_string(), 42, "Security".to_string()))).unwrap();
    assert_eq!((s.username.as_str(), s.exp, s.role_name.as_str()), ("budi", 42usize, "Security"));
    assert!(matches!(session_claims_from_read(None), Err(AppError::InvalidToken)));
    if (usize::MAX as u64) < u64::MAX {
        assert!(claims_from_read(Some(("x".into(), u64::MAX, "y".into()))).is_none());
        assert!(matches!(session_claims_from_read(Some(("x".into(), u64::MAX, "y".into()))), Err(AppError::InvalidToken)));
    }
}
