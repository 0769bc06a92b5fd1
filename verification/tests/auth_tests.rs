use booking::auth::{
    hash_password, login, refresh, register, validate, validate_token, verify_password, AuthAction, AuthEvent,
    AuthStep, Claims, RegisterRequest, User,
};
use booking::config::JwtConfig;
use booking::errors::AppError;
use booking::roles::UserRole;

fn config() -> JwtConfig {
    JwtConfig::from_env("secret".to_string(), Some("2".to_string()), Some("10".to_string()))
}

fn req(email: &str, password: &str, role: &str) -> RegisterRequest {
    RegisterRequest { email: email.to_string(), password: password.to_string(), role: role.to_string() }
}

fn refused(a: AuthAction) -> AppError {
    match a {
        AuthAction::Respond(Err(e)) => e,
        _ => panic!("expected a refusal"),
    }
}

#[test]
fn registration_validation() {
    let c = config();
    let cases = [
        (req("", "secret1", "user"), "Email and password are required"),
        (req("a@b.c", "", "user"), "Email and password are required"),
        (req("a@b.c", "12345", "user"), "Password must be at least 6 characters"),
        (req("a@b.c", "secret1", "guest"), "Invalid role. Must be: user, provider, admin"),
    ];
    for (p, msg) in cases {
        let (next, action) = register(&c, &p, AuthStep::Start, AuthEvent::Begin);
        assert!(matches!(next, AuthStep::Done));
        match refused(action) {
            AppError::BadRequest(m) => assert_eq!(m, msg),
            _ => panic!(),
        }
    }
    // six bytes in five characters is long enough
    let (next, action) = register(&c, &req("a@b.c", "ééé", "user"), AuthStep::Start, AuthEvent::Begin);
    assert!(matches!(next, AuthStep::CheckingEmail { role: UserRole::User }));
    assert!(matches!(action, AuthAction::CheckEmailExists { email } if email == "a@b.c"));
}

#[test]
fn taken_email_is_a_conflict() {
    let c = config();
    let p = req("a@b.c", "secret1", "provider");
    let (step, _) = register(&c, &p, AuthStep::Start, AuthEvent::Begin);
    let (next, action) = register(&c, &p, step, AuthEvent::EmailChecked(Ok(true)));
    assert!(matches!(next, AuthStep::Done));
    assert!(matches!(refused(action), AppError::Conflict(m) if m == "User with this email already exists"));
}

#[test]
fn registered_account_logs_in() {
    let c = config();
    let p = req("a@b.c", "secret1", "provider");
    let (step, _) = register(&c, &p, AuthStep::Start, AuthEvent::Begin);
    let (step, action) = register(&c, &p, step, AuthEvent::EmailChecked(Ok(false)));
    let (email, hash, stored_role) = match action {
        AuthAction::CreateUser { email, password_hash, stored_role } => (email, password_hash, stored_role),
        _ => panic!(),
    };
    assert_eq!(stored_role, "provider");
    assert_ne!(hash, "secret1");
    let user = User { id: 9, email: email.clone(), password_hash: hash.clone(), role: stored_role.clone() };
    let (step, action) = register(&c, &p, step, AuthEvent::UserCreated(Ok(User { id: 9, email, password_hash: hash.clone(), role: stored_role })));
    assert!(matches!(action, AuthAction::IssueToken { user_id: 9, role: UserRole::Provider, expiry_hours: 2, .. }));
    let (step, action) = register(&c, &p, step, AuthEvent::TokenIssued(Ok("A".to_string())));
    assert!(matches!(action, AuthAction::IssueToken { user_id: 9, expiry_hours: 10, .. }));
    let (step, action) = register(&c, &p, step, AuthEvent::TokenIssued(Ok("R".to_string())));
    assert!(matches!(step, AuthStep::Done));
    match action {
        AuthAction::Respond(Ok(r)) => {
            assert_eq!((r.access_token.as_str(), r.refresh_token.as_str(), r.token_type.as_str()), ("A", "R", "Bearer"));
            assert_eq!((r.user_id, r.email.as_str(), r.role.as_str()), (9, "a@b.c", "provider"));
        }
        _ => panic!(),
    }

    // logging in with the registered password
    let (step, action) = login(&c, "a@b.c", "secret1", AuthStep::Start, AuthEvent::Begin);
    assert!(matches!(action, AuthAction::FindUserByEmail { ref email } if email == "a@b.c"));
    let wrong = User { id: 9, email: "a@b.c".to_string(), password_hash: hash.clone(), role: "provider".to_string() };
    let (_, action) = login(&c, "a@b.c", "secret1", step, AuthEvent::UserFound(Ok(Some(user))));
    assert!(matches!(action, AuthAction::IssueToken { user_id: 9, role: UserRole::Provider, expiry_hours: 2, .. }));

    // a wrong password is refused like an unknown email
    let (_, action) = login(&c, "a@b.c", "secret2", AuthStep::FindingUserByEmail, AuthEvent::UserFound(Ok(Some(wrong))));
    assert!(matches!(refused(action), AppError::Unauthorized(m) if m == "Invalid email or password"));
    let (_, action) = login(&c, "x@b.c", "secret1", AuthStep::FindingUserByEmail, AuthEvent::UserFound(Ok(None)));
    assert!(matches!(refused(action), AppError::Unauthorized(m) if m == "Invalid email or password"));
}

#[test]
fn login_with_bad_stored_data() {
    let c = config();
    let bad_hash = User { id: 1, email: "e".to_string(), password_hash: "not a hash".to_string(), role: "user".to_string() };
    let (_, action) = login(&c, "e", "pw", AuthStep::FindingUserByEmail, AuthEvent::UserFound(Ok(Some(bad_hash))));
    assert!(matches!(refused(action), AppError::Internal(m) if m.starts_with("Failed to parse hash: ")));
    let hash = hash_password("pw").unwrap();
    let bad_role = User { id: 1, email: "e".to_string(), password_hash: hash, role: "root".to_string() };
    let (_, action) = login(&c, "e", "pw", AuthStep::FindingUserByEmail, AuthEvent::UserFound(Ok(Some(bad_role))));
    assert!(matches!(refused(action), AppError::Internal(m) if m == "Invalid role in database"));
    let (_, action) = login(&c, "e", "pw", AuthStep::FindingUserByEmail, AuthEvent::UserFound(Err(AppError::Internal("db".into()))));
    assert!(matches!(refused(action), AppError::Internal(m) if m == "db"));
}

#[test]
fn password_hashes_verify() {
    let h = hash_password("correct horse").unwrap();
    assert!(h.starts_with("$argon2id$"));
    assert_ne!(h, "correct horse");
    assert_eq!(verify_password("correct horse", &h).unwrap(), true);
    assert_eq!(verify_password("wrong horse", &h).unwrap(), false);
    assert!(matches!(verify_password("x", "not a hash"), Err(AppError::Internal(m)) if m.starts_with("Failed to parse hash: ")));
}

#[test]
fn any_ordinary_password_hashes() {
    let long = "p".repeat(5000);
    for p in ["", "ž", long.as_str()] {
        let h = hash_password(p).unwrap();
        assert_eq!(verify_password(p, &h).unwrap(), true);
    }
}

#[test]
fn refresh_flow() {
    let c = config();
    let (step, action) = refresh(&c, "tok", AuthStep::Start, AuthEvent::Begin);
    assert!(matches!(action, AuthAction::ValidateToken { ref token } if token == "tok"));
    let (_, action) = refresh(&c, "tok", AuthStep::CheckingToken, AuthEvent::TokenChecked(None));
    assert!(matches!(refused(action), AppError::Unauthorized(m) if m == "Invalid or expired refresh token"));
    let claims = Claims { sub: 7, email: "e".to_string(), role: UserRole::User };
    let (step2, action) = refresh(&c, "tok", step, AuthEvent::TokenChecked(Some(claims)));
    assert!(matches!(action, AuthAction::FindUserById { id: 7 }));
    let (_, action) = refresh(&c, "tok", AuthStep::FindingUserById, AuthEvent::UserFound(Ok(None)));
    assert!(matches!(refused(action), AppError::Unauthorized(m) if m == "User no longer exists"));
    let u = User { id: 7, email: "e".to_string(), password_hash: String::new(), role: "admin".to_string() };
    let (_, action) = refresh(&c, "tok", step2, AuthEvent::UserFound(Ok(Some(u))));
    assert!(matches!(action, AuthAction::IssueToken { user_id: 7, role: UserRole::Admin, expiry_hours: 2, .. }));
}

#[test]
fn token_issue_failure_is_answered() {
    let c = config();
    let u = User { id: 7, email: "e".to_string(), password_hash: String::new(), role: "admin".to_string() };
    let step = AuthStep::IssuingAccess { user: u, role: UserRole::Admin };
    let (next, action) = refresh(&c, "tok", step, AuthEvent::TokenIssued(Err(AppError::Internal("sign".into()))));
    assert!(matches!(next, AuthStep::Done));
    assert!(matches!(refused(action), AppError::Internal(m) if m == "sign"));
}

#[test]
fn token_checks() {
    assert_eq!(validate(Some("Bearer abc".to_string())).unwrap(), "abc");
    assert!(matches!(validate(None), Err(AppError::Unauthorized(m)) if m == "Missing Authorization header"));
    assert!(matches!(validate(Some("abc".to_string())), Err(AppError::Unauthorized(m)) if m == "Invalid authorization format"));
    let r = validate_token(Some(Claims { sub: 3, email: "e@x".to_string(), role: UserRole::Admin }));
    assert!(r.valid);
    assert_eq!(r.user_id, Some(3));
    assert_eq!(r.email.as_deref(), Some("e@x"));
    assert_eq!(r.role.as_deref(), Some("admin"));
    let r = validate_token(None);
    assert!(!r.valid && r.user_id.is_none() && r.email.is_none() && r.role.is_none());
}

#[test]
fn unreadable_hash_is_refused_whatever_the_password() {
    let a = verify_password("one", "not a hash");
    let b = verify_password("two", "not a hash");
    match (a, b) {
        (Err(AppError::Internal(m1)), Err(AppError::Internal(m2))) => {
            assert!(m1.starts_with("Failed to parse hash: "));
            assert_eq!(m1, m2);
        }
        other => panic!("{:?}", other),
    }
}
