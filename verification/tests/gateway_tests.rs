use booking::auth::Claims;
use booking::errors::AppError;
use booking::gateway::{
    admit_claims, append_query_string, auth_middleware, compose_step, composed_my_appointments, ComposeAction, ComposeEvent, ComposeStep, ComposedPlan, extract_token_from_header,
    is_public_path, profile_after_registration, profile_url, proxy_appointment, proxy_auth, proxy_notification,
    proxy_request, proxy_uploads, proxy_user, registration_request, registration_role, relayed_headers, upstream_error, Admission, AuthRoute, Header, ServiceUrls,
};
use booking::ids::{parse_uuid, resolve_user_id};
use booking::roles::UserRole;
use booking::appointment::{my_appointments, AppointmentListing};

fn urls() -> ServiceUrls {
    ServiceUrls::from_env(None, None, None, None)
}

fn h(name: &str, value: &str) -> Header {
    Header { name: name.to_string(), value: value.as_bytes().to_vec() }
}

#[test]
fn public_paths_pass_without_token() {
    assert!(is_public_path("/api/auth/login"));
    assert!(is_public_path("/api/auth/register"));
    assert!(is_public_path("/x/auth/login/extra"));
    assert!(is_public_path("/uploads/a.png"));
    assert!(is_public_path("/health"));
    assert!(!is_public_path("/health/"));
    assert!(!is_public_path("/api/uploads/a.png"));
    assert!(!is_public_path("/api/auth/refresh"));
    assert!(!is_public_path("/api/appointments/my"));
    assert!(matches!(auth_middleware("/health", None), Admission::Pass));
}

#[test]
fn protected_paths_need_a_bearer_token() {
    match auth_middleware("/api/users/1", None) {
        Admission::Reject(AppError::Unauthorized(m)) => assert_eq!(m, "Missing Authorization header"),
        _ => panic!(),
    }
    match auth_middleware("/api/users/1", Some("Basic abc".to_string())) {
        Admission::Reject(AppError::Unauthorized(m)) => assert_eq!(m, "Invalid authorization format"),
        _ => panic!(),
    }
    match auth_middleware("/api/users/1", Some("Bearer tok.en".to_string())) {
        Admission::CheckToken(t) => assert_eq!(t, "tok.en"),
        _ => panic!(),
    }
    assert_eq!(extract_token_from_header("Bearer "), Some(String::new()));
    assert_eq!(extract_token_from_header("bearer x"), None);
}

#[test]
fn admitted_identity_headers() {
    let sub = 0x67e55044_10b1_426f_9247_bb680e5fe0c8u128;
    let c = Claims { sub, email: "a@b.c".to_string(), role: UserRole::Provider };
    let hdrs = admit_claims(Some(c)).unwrap();
    assert_eq!(hdrs.user_id, "67e55044-10b1-426f-9247-bb680e5fe0c8");
    assert_eq!(hdrs.role, "provider");
    match admit_claims(None) {
        Err(AppError::Unauthorized(m)) => assert_eq!(m, "Invalid or expired token"),
        _ => panic!(),
    }
}

#[test]
fn gateway_identity_selects_the_listing() {
    let sub = 42u128;
    for (role, provider) in [(UserRole::User, false), (UserRole::Provider, true), (UserRole::Admin, false)] {
        let hdrs = admit_claims(Some(Claims { sub, email: String::new(), role })).unwrap();
        assert_eq!(parse_uuid(&hdrs.user_id), Some(sub));
        let user = resolve_user_id(None, Some(hdrs.user_id.clone())).unwrap();
        assert_eq!(user, sub);
        match my_appointments(user, None, Some(hdrs.role.clone())) {
            AppointmentListing::ByProvider(u) => { assert!(provider); assert_eq!(u, sub); }
            AppointmentListing::ByCustomer(u) => { assert!(!provider); assert_eq!(u, sub); }
        }
    }
}

#[test]
fn query_strings_are_appended() {
    assert_eq!(append_query_string("http://a/b", None), "http://a/b");
    assert_eq!(append_query_string("http://a/b", Some("x=1&y=2".to_string())), "http://a/b?x=1&y=2");
    assert_eq!(append_query_string("http://a/b", Some(String::new())), "http://a/b?");
}

#[test]
fn routes_to_each_service() {
    let u = urls();
    match proxy_auth(&u, "register", None) {
        AuthRoute::Register { url } => assert_eq!(url, "http://auth-service:3001/auth/register"),
        _ => panic!(),
    }
    match proxy_auth(&u, "login", Some("a=b".to_string())) {
        AuthRoute::Forward { url } => assert_eq!(url, "http://auth-service:3001/auth/login?a=b"),
        _ => panic!(),
    }
    assert_eq!(proxy_user(&u, "providers", Some("search=x".to_string())), "http://user-service:3002/users/providers?search=x");
    assert_eq!(proxy_appointment(&u, "slots", None), "http://appointment-service:3003/appointments/slots");
    assert_eq!(proxy_notification(&u, "my", None), "http://notification-service:3004/notifications/my");
    assert_eq!(proxy_uploads(&u, "a.png", None), "http://user-service:3002/uploads/a.png");
    assert_eq!(profile_url(&u), "http://user-service:3002/users");
    let p = composed_my_appointments(&u, None, None, None);
    assert_eq!(p.appointments_url, "http://appointment-service:3003/appointments/my");
    assert_eq!(p.notifications_url, "http://notification-service:3004/notifications/my");
    assert_eq!(p.authorization, "");
    assert_eq!((p.user_id, p.role), (None, None));
    let p = composed_my_appointments(&u, Some("Bearer t".to_string()), Some("u1".to_string()), Some("user".to_string()));
    assert_eq!(p.authorization, "Bearer t");
    assert_eq!(p.user_id.as_deref(), Some("u1"));
    assert_eq!(p.role.as_deref(), Some("user"));
}

#[test]
fn forwarded_headers_and_body() {
    let hs = vec![
        h("accept", "*/*"),
        h("Content-Type", "application/json"),
        h("x-user-id", "u1"),
        h("content-type", "text/plain"),
        h("X-USER-ROLE", "admin"),
    ];
    let p = proxy_request(&hs, 0);
    assert!(!p.send_body);
    let got: Vec<(String, Vec<u8>)> = p.headers.into_iter().map(|x| (x.name, x.value)).collect();
    assert_eq!(got, vec![
        ("content-type".to_string(), b"application/json".to_vec()),
        ("x-user-id".to_string(), b"u1".to_vec()),
        ("x-user-role".to_string(), b"admin".to_vec()),
    ]);
    let p = proxy_request(&vec![h("authorization", "Bearer t")], 3);
    assert!(p.send_body);
    assert_eq!(p.headers.len(), 1);
    assert_eq!(p.headers[0].name, "authorization");
}

#[test]
fn registration_role_from_body() {
    assert_eq!(registration_role(br#"{"email":"a","role":"provider"}"#).unwrap(), "provider");
    assert_eq!(registration_role(br#"{"email":"a"}"#).unwrap(), "user");
    assert_eq!(registration_role(br#"{"role":5}"#).unwrap(), "user");
    assert_eq!(registration_role(br#"[1,2]"#).unwrap(), "user");
    assert!(matches!(registration_role(b"{not json"), Err(AppError::BadRequest(m)) if !m.is_empty()));
}

#[test]
fn profile_follows_successful_registration() {
    let body = br#"{"success":true,"data":{"user_id":"abc","email":"a"}}"#;
    let p = profile_after_registration("provider", true, body).unwrap();
    assert_eq!(p.user_id, "abc");
    assert_eq!(p.role, "provider");
    assert_eq!(p.service_type.as_deref(), Some("general"));
    let p = profile_after_registration("user", true, body).unwrap();
    assert_eq!(p.service_type, None);
    assert!(profile_after_registration("user", false, body).is_none());
    assert!(profile_after_registration("user", true, br#"{"data":{}}"#).is_none());
    assert!(profile_after_registration("user", true, b"oops").is_none());
}

#[test]
fn only_content_type_is_relayed_back() {
    let hs = vec![h("set-cookie", "a=b"), h("Content-Type", "image/png"), h("content-type", "x")];
    let r = relayed_headers(&hs);
    assert_eq!(r.len(), 1);
    assert_eq!((r[0].name.as_str(), r[0].value.as_slice()), ("content-type", &b"image/png"[..]));
    assert!(relayed_headers(&vec![h("x", "y")]).is_empty());
}

fn run_view(plan: &ComposedPlan, answers: Vec<Result<Vec<u8>, String>>) -> (Vec<String>, Result<String, AppError>) {
    let mut asked = Vec::new();
    let mut answers = answers.into_iter();
    let (mut step, mut event) = (ComposeStep::Start, ComposeEvent::Begin);
    loop {
        let (next, action) = compose_step(plan, step, event);
        step = next;
        event = match action {
            ComposeAction::Get { url } => {
                asked.push(url);
                ComposeEvent::Fetched(answers.next().unwrap())
            }
            ComposeAction::Respond(r) => return (asked, r),
        };
    }
}

#[test]
fn composed_view_combines_both_lists() {
    let plan = composed_my_appointments(&urls(), Some("Bearer t".to_string()), Some("u1".to_string()), None);
    let a = br#"{"success":true,"data":[1, 2]}"#.to_vec();
    let n = br#"{"success":true,"data":{"a":"b"}}"#.to_vec();
    let (asked, r) = run_view(&plan, vec![Ok(a.clone()), Ok(n.clone())]);
    assert_eq!(asked, vec![plan.appointments_url.clone(), plan.notifications_url.clone()]);
    assert_eq!(r.unwrap(), r#"{"success":true,"data":{"appointments":[1,2],"notifications":{"a":"b"}}}"#);
    let (_, r) = run_view(&plan, vec![Ok(br#"{"error":"x"}"#.to_vec()), Ok(b"{}".to_vec())]);
    assert_eq!(r.unwrap(), r#"{"success":true,"data":{"appointments":null,"notifications":null}}"#);
}

#[test]
fn composed_view_stops_at_the_first_failure() {
    let plan = composed_my_appointments(&urls(), None, None, None);
    let n = br#"{"data":[]}"#.to_vec();
    let (asked, r) = run_view(&plan, vec![Ok(b"not json".to_vec()), Ok(n.clone())]);
    assert_eq!(asked, vec![plan.appointments_url.clone()]);
    assert!(matches!(r, Err(AppError::Internal(m)) if m == "error decoding response body"));
    let (asked, r) = run_view(&plan, vec![Err("error sending request".to_string())]);
    assert_eq!(asked.len(), 1);
    assert!(matches!(r, Err(AppError::Internal(m)) if m == "error sending request"));
    let (asked, r) = run_view(&plan, vec![Ok(n.clone()), Ok(b"".to_vec())]);
    assert_eq!(asked.len(), 2);
    assert!(matches!(r, Err(AppError::Internal(m)) if m == "error decoding response body"));
}

#[test]
fn registration_goes_out_as_post_with_its_content_type() {
    let hs = vec![h("Authorization", "Bearer t"), h("Content-Type", "application/json"), h("x-user-id", "u1")];
    let p = registration_request(&hs, b"{}".to_vec());
    assert_eq!(p.method, "POST");
    assert_eq!(p.body, b"{}".to_vec());
    assert_eq!(p.headers.len(), 1);
    assert_eq!((p.headers[0].name.as_str(), p.headers[0].value.as_slice()), ("content-type", &b"application/json"[..]));
    let p = registration_request(&vec![h("accept", "*/*")], vec![]);
    assert!(p.headers.is_empty() && p.body.is_empty());
    match upstream_error("connection refused") {
        AppError::Internal(m) => assert_eq!(m, "Upstream error: connection refused"),
        other => panic!("{:?}", other),
    }
}
