//! The API gateway: which requests pass without a token, how a token becomes
//! identity headers, where each request is forwarded, which headers travel
//! with it, and the profile that follows a successful registration.

use vstd::prelude::*;
use vstd::string::StrSliceExecFns;
use crate::errors::AppError;
use crate::auth::Claims;
use crate::ids::{uuid_parsed, uuid_text, uuid_to_string};
use crate::json::{json_text_at, json_value_at, text_at_pointer, value_at_pointer};
use crate::roles::role_name;
use crate::text::{chars_of, join2, join3, owned, seq_contains, seq_starts_with, str_contains, str_eq, str_starts_with};
use crate::config::value_or;
use vstd::pervasive::unreached;

verus! {

/// Base URLs of the services behind the gateway.
pub struct ServiceUrls {
    pub auth: String,
    pub user: String,
    pub appointment: String,
    pub notification: String,
}

impl ServiceUrls {
    /// From `AUTH_SERVICE_URL`, `USER_SERVICE_URL`, `APPOINTMENT_SERVICE_URL`
    /// and `NOTIFICATION_SERVICE_URL`, each with its in-cluster default.
    pub fn from_env(auth: Option<String>, user: Option<String>, appointment: Option<String>, notification: Option<String>) -> (u: Self)
        ensures
            u.auth@ == value_or(auth, "http://auth-service:3001"@),
            u.user@ == value_or(user, "http://user-service:3002"@),
            u.appointment@ == value_or(appointment, "http://appointment-service:3003"@),
            u.notification@ == value_or(notification, "http://notification-service:3004"@),
    {
        ServiceUrls {
            auth: match auth { Some(s) => s, None => owned("http://auth-service:3001") },
            user: match user { Some(s) => s, None => owned("http://user-service:3002") },
            appointment: match appointment { Some(s) => s, None => owned("http://appointment-service:3003") },
            notification: match notification { Some(s) => s, None => owned("http://notification-service:3004") },
        }
    }
}

/// The answer of the auth service to a token check, as the gateway reads it.
pub struct ValidateResponse {
    pub success: bool,
    pub data: Option<ValidateData>,
}

/// The body of a token check.
pub struct ValidateData {
    pub valid: bool,
    pub user_id: Option<u128>,
    pub email: Option<String>,
    pub role: Option<String>,
}

// ---------------------------------------------------------------------------
// Admission

/// Paths that pass the gateway without a token: login, registration,
/// uploaded files and the health probe.
pub open spec fn public_path(path: Seq<char>) -> bool {
    ||| seq_contains(path, "/auth/login"@)
    ||| seq_contains(path, "/auth/register"@)
    ||| seq_starts_with(path, "/uploads/"@)
    ||| path == "/health"@
}

/// Whether `path` passes without a token.
pub fn is_public_path(path: &str) -> (r: bool)
    ensures
        r == public_path(path@),
{
    str_contains(path, "/auth/login") || str_contains(path, "/auth/register")
        || str_starts_with(path, "/uploads/") || str_eq(path, "/health")
}

/// The token of a `Bearer` authorization header.
pub open spec fn bearer_token(header: Seq<char>) -> Option<Seq<char>> {
    if seq_starts_with(header, "Bearer "@) {
        Some(header.subrange("Bearer "@.len() as int, header.len() as int))
    } else {
        None
    }
}

/// The token carried by an authorization header of the form `Bearer <token>`.
pub fn extract_token_from_header(header: &str) -> (r: Option<String>)
    ensures
        r matches Some(t) ==> bearer_token(header@) == Some(t@),
        r is None ==> bearer_token(header@) is None,
{
    let prefix = "Bearer ";
    if str_starts_with(header, prefix) {
        let n = header.unicode_len();
        let k = prefix.unicode_len();
        Some(owned(header.substring_char(k, n)))
    } else {
        None
    }
}

/// The gateway's first answer to a request.
pub enum Admission {
    /// Forward the request as it is.
    Pass,
    /// Refuse it.
    Reject(AppError),
    /// Check this token, then answer with `admit_claims`.
    CheckToken(String),
}

/// The first step of admission, from the request path and its
/// authorization header (absent where it is missing or not visible ASCII).
pub fn auth_middleware(path: &str, authorization: Option<String>) -> (a: Admission)
    ensures
        public_path(path@) ==> a is Pass,
        !public_path(path@) ==> match authorization {
            None => a matches Admission::Reject(AppError::Unauthorized(m))
                && m@ == "Missing Authorization header"@,
            Some(h) => match bearer_token(h@) {
                None => a matches Admission::Reject(AppError::Unauthorized(m))
                    && m@ == "Invalid authorization format"@,
                Some(t) => a matches Admission::CheckToken(tok) && tok@ == t,
            },
        },
{
    if is_public_path(path) {
        return Admission::Pass;
    }
    match authorization {
        None => Admission::Reject(AppError::Unauthorized(owned("Missing Authorization header"))),
        Some(h) => match extract_token_from_header(h.as_str()) {
            None => Admission::Reject(AppError::Unauthorized(owned("Invalid authorization format"))),
            Some(t) => Admission::CheckToken(t),
        },
    }
}

/// The identity the gateway attaches to an admitted request.
pub struct IdentityHeaders {
    /// The value of `X-User-Id`.
    pub user_id: String,
    /// The value of `X-User-Role`.
    pub role: String,
}

/// The second step of admission, from the outcome of the token check:
/// the identity headers, or the refusal of an invalid or expired token.
pub fn admit_claims(claims: Option<Claims>) -> (r: Result<IdentityHeaders, AppError>)
    ensures
        match claims {
            None => r matches Err(AppError::Unauthorized(m)) && m@ == "Invalid or expired token"@,
            Some(c) => r matches Ok(h) && h.user_id@ == uuid_text(c.sub) && h.role@ == role_name(c.role)
                && uuid_parsed(h.user_id@) == Some(c.sub),
        },
{
    match claims {
        None => Err(AppError::Unauthorized(owned("Invalid or expired token"))),
        Some(c) => Ok(IdentityHeaders { user_id: uuid_to_string(c.sub), role: c.role.as_string() }),
    }
}

// ---------------------------------------------------------------------------
// Routing

/// `base`, followed by `?` and the query string where there is one.
pub open spec fn with_query(base: Seq<char>, query: Option<String>) -> Seq<char> {
    match query {
        Some(q) => base + "?"@ + q@,
        None => base,
    }
}

/// The URL of `base` with the request's query string appended.
pub fn append_query_string(base_url: &str, query: Option<String>) -> (url: String)
    ensures
        url@ == with_query(base_url@, query),
{
    match query {
        Some(q) => join3(base_url, "?", q.as_str()),
        None => owned(base_url),
    }
}

/// `service` + `section` + `path`, with the query string appended.
fn upstream(service: &String, section: &str, path: &str, query: Option<String>) -> (url: String)
    ensures
        url@ == with_query(service@ + section@ + path@, query),
{
    let base = join3(service.as_str(), section, path);
    append_query_string(base.as_str(), query)
}

/// How a request under `/api/auth/` is forwarded.
pub enum AuthRoute {
    /// A registration: posted on with only its content type, and followed by
    /// the creation of a profile (see `registration_role`,
    /// `profile_after_registration`).
    Register { url: String },
    /// Any other request, forwarded as `proxy_request` says.
    Forward { url: String },
}

/// Where a request under `/api/auth/{path}` goes.
pub fn proxy_auth(urls: &ServiceUrls, path: &str, query: Option<String>) -> (r: AuthRoute)
    ensures
        match r {
            AuthRoute::Register { url } => path@ == "register"@
                && url@ == with_query(urls.auth@ + "/auth/"@ + path@, query),
            AuthRoute::Forward { url } => path@ != "register"@
                && url@ == with_query(urls.auth@ + "/auth/"@ + path@, query),
        },
{
    let url = upstream(&urls.auth, "/auth/", path, query);
    if str_eq(path, "register") {
        AuthRoute::Register { url }
    } else {
        AuthRoute::Forward { url }
    }
}

/// Where a request under `/api/users/{path}` goes.
pub fn proxy_user(urls: &ServiceUrls, path: &str, query: Option<String>) -> (url: String)
    ensures
        url@ == with_query(urls.user@ + "/users/"@ + path@, query),
{
    upstream(&urls.user, "/users/", path, query)
}

/// Where a request under `/api/appointments/{path}` goes.
pub fn proxy_appointment(urls: &ServiceUrls, path: &str, query: Option<String>) -> (url: String)
    ensures
        url@ == with_query(urls.appointment@ + "/appointments/"@ + path@, query),
{
    upstream(&urls.appointment, "/appointments/", path, query)
}

/// Where a request under `/api/notifications/{path}` goes.
pub fn proxy_notification(urls: &ServiceUrls, path: &str, query: Option<String>) -> (url: String)
    ensures
        url@ == with_query(urls.notification@ + "/notifications/"@ + path@, query),
{
    upstream(&urls.notification, "/notifications/", path, query)
}

/// Where a request under `/uploads/{path}` goes: the user service keeps the files.
pub fn proxy_uploads(urls: &ServiceUrls, path: &str, query: Option<String>) -> (url: String)
    ensures
        url@ == with_query(urls.user@ + "/uploads/"@ + path@, query),
{
    upstream(&urls.user, "/uploads/", path, query)
}

/// The two requests behind the combined view of one's appointments and
/// notifications, and the authorization value sent with both.
pub struct ComposedPlan {
    pub appointments_url: String,
    pub notifications_url: String,
    pub authorization: String,
    /// The caller's `X-User-Id`, sent with both requests so that each
    /// service lists the caller's own records.
    pub user_id: Option<String>,
    /// The caller's `X-User-Role`, sent with both requests.
    pub role: Option<String>,
}

/// Plans the combined view of the caller's appointments and notifications:
/// both lists are fetched with the caller's authorization header (empty where
/// it is missing) and the identity headers the gateway attached to the
/// request, so that both services answer for the caller.
pub fn composed_my_appointments(urls: &ServiceUrls, authorization: Option<String>, user_id: Option<String>, role: Option<String>) -> (p: ComposedPlan)
    ensures
        p.appointments_url@ == urls.appointment@ + "/appointments/my"@,
        p.notifications_url@ == urls.notification@ + "/notifications/my"@,
        p.authorization@ == value_or(authorization, Seq::empty()),
        p.user_id == user_id,
        p.role == role,
{
    ComposedPlan {
        appointments_url: join2(urls.appointment.as_str(), "/appointments/my"),
        notifications_url: join2(urls.notification.as_str(), "/notifications/my"),
        authorization: match authorization {
            Some(a) => a,
            None => String::new(),
        },
        user_id,
        role,
    }
}

/// The combined view of two lists: the JSON text of the `data` of each
/// answer, or `null` where an answer has none.
pub open spec fn composed_body(appointments: Option<Seq<char>>, notifications: Option<Seq<char>>) -> Seq<char> {
    "{\"success\":true,\"data\":{\"appointments\":"@ + value_or_null(appointments)
        + ",\"notifications\":"@ + value_or_null(notifications) + "}}"@
}

/// The JSON text of a value, or `null`.
pub open spec fn value_or_null(v: Option<Seq<char>>) -> Seq<char> {
    match v {
        Some(t) => t,
        None => "null"@,
    }
}

/// What the HTTP client reports for an answer whose body is not JSON.
pub open spec fn decode_failure() -> Seq<char> {
    "error decoding response body"@
}

/// Where the combined view stands.
pub enum ComposeStep {
    Start,
    /// The caller's appointments were asked for.
    FetchingAppointments,
    /// The appointments answer was read; its `data`, as JSON text, where it
    /// has one. The caller's notifications were asked for.
    FetchingNotifications { appointments: Option<String> },
    Done,
}

/// What the gateway does next for the combined view.
pub enum ComposeAction {
    /// Send a GET to `url` with the plan's authorization and identity headers.
    Get { url: String },
    Respond(Result<String, AppError>),
}

/// What came of the last action: the body of the answer, or the HTTP
/// client's message where the request or the reading of the answer failed.
pub enum ComposeEvent {
    Begin,
    Fetched(Result<Vec<u8>, String>),
}

/// The event answers the action that led to `step`.
pub open spec fn compose_answers(step: ComposeStep, event: ComposeEvent) -> bool {
    match step {
        ComposeStep::Start => event is Begin,
        ComposeStep::FetchingAppointments => event is Fetched,
        ComposeStep::FetchingNotifications { .. } => event is Fetched,
        ComposeStep::Done => false,
    }
}

/// The text of an optional string.
pub open spec fn opt_text(v: Option<String>) -> Option<Seq<char>> {
    match v {
        Some(s) => Some(s@),
        None => None,
    }
}

/// How the combined view moves: appointments first; the notifications are
/// asked for only once the appointments answer has been read as JSON; a
/// failed request or a body that is not JSON ends the view with an internal
/// error.
pub open spec fn compose_moves(plan: ComposedPlan, step: ComposeStep, event: ComposeEvent, next: ComposeStep, action: ComposeAction) -> bool {
    match (step, event) {
        (ComposeStep::Start, ComposeEvent::Begin) =>
            next is FetchingAppointments && (action matches ComposeAction::Get { url } && url@ == plan.appointments_url@),
        (ComposeStep::FetchingAppointments, ComposeEvent::Fetched(Err(m))) =>
            next is Done && (action matches ComposeAction::Respond(Err(AppError::Internal(x))) && x@ == m@),
        (ComposeStep::FetchingAppointments, ComposeEvent::Fetched(Ok(body))) => match json_value_at(body@, "/data"@) {
            Err(_) => next is Done && (action matches ComposeAction::Respond(Err(AppError::Internal(x))) && x@ == decode_failure()),
            Ok(a) => (next matches ComposeStep::FetchingNotifications { appointments } && opt_text(appointments) == a)
                && (action matches ComposeAction::Get { url } && url@ == plan.notifications_url@),
        },
        (ComposeStep::FetchingNotifications { appointments }, ComposeEvent::Fetched(Err(m))) =>
            next is Done && (action matches ComposeAction::Respond(Err(AppError::Internal(x))) && x@ == m@),
        (ComposeStep::FetchingNotifications { appointments }, ComposeEvent::Fetched(Ok(body))) => match json_value_at(body@, "/data"@) {
            Err(_) => next is Done && (action matches ComposeAction::Respond(Err(AppError::Internal(x))) && x@ == decode_failure()),
            Ok(n) => next is Done
                && (action matches ComposeAction::Respond(Ok(text)) && text@ == composed_body(opt_text(appointments), n)),
        },
        _ => false,
    }
}

/// One step of the combined view of the caller's appointments and
/// notifications, answered as
/// `{"success":true,"data":{"appointments":A,"notifications":N}}` with the
/// `data` of each answer (`null` where there is none).
pub fn compose_step(plan: &ComposedPlan, step: ComposeStep, event: ComposeEvent) -> (r: (ComposeStep, ComposeAction))
    requires
        compose_answers(step, event),
    ensures
        compose_moves(*plan, step, event, r.0, r.1),
{
    proof { reveal_strlit("error decoding response body"); }
    match step {
        ComposeStep::Start => (ComposeStep::FetchingAppointments, ComposeAction::Get { url: plan.appointments_url.clone() }),
        ComposeStep::FetchingAppointments => match event {
            ComposeEvent::Fetched(Err(m)) => (ComposeStep::Done, ComposeAction::Respond(Err(AppError::Internal(m)))),
            ComposeEvent::Fetched(Ok(body)) => match value_at_pointer(body.as_slice(), "/data") {
                Err(_) => (
                    ComposeStep::Done,
                    ComposeAction::Respond(Err(AppError::Internal(owned("error decoding response body")))),
                ),
                Ok(a) => (
                    ComposeStep::FetchingNotifications { appointments: a },
                    ComposeAction::Get { url: plan.notifications_url.clone() },
                ),
            },
            _ => unreached(),
        },
        ComposeStep::FetchingNotifications { appointments } => match event {
            ComposeEvent::Fetched(Err(m)) => (ComposeStep::Done, ComposeAction::Respond(Err(AppError::Internal(m)))),
            ComposeEvent::Fetched(Ok(body)) => match value_at_pointer(body.as_slice(), "/data") {
                Err(_) => (
                    ComposeStep::Done,
                    ComposeAction::Respond(Err(AppError::Internal(owned("error decoding response body")))),
                ),
                Ok(n) => {
                    let a_text = match appointments {
                        Some(t) => t,
                        None => owned("null"),
                    };
                    let n_text = match n {
                        Some(t) => t,
                        None => owned("null"),
                    };
                    proof { reveal_strlit("null"); }
                    let head = join3("{\"success\":true,\"data\":{\"appointments\":", a_text.as_str(), ",\"notifications\":");
                    (ComposeStep::Done, ComposeAction::Respond(Ok(join3(head.as_str(), n_text.as_str(), "}}"))))
                },
            },
            _ => unreached(),
        },
        ComposeStep::Done => unreached(),
    }
}

// ---------------------------------------------------------------------------
// Forwarding

/// A request or response header: its name and its raw value.
pub struct Header {
    pub name: String,
    pub value: Vec<u8>,
}

/// `c` with ASCII capitals made small.
pub open spec fn ascii_lower(c: char) -> char {
    if 'A' <= c && c <= 'Z' {
        ((c as int) + 32) as char
    } else {
        c
    }
}

/// Header names compare without regard to ASCII case.
pub open spec fn same_header_name(a: Seq<char>, b: Seq<char>) -> bool {
    a.len() == b.len() && forall|i: int| 0 <= i < a.len() ==> ascii_lower(#[trigger] a[i]) == ascii_lower(b[i])
}

/// The value of the first header from index `i` on that is named `name`.
pub open spec fn first_value_from(hs: Seq<Header>, name: Seq<char>, i: int) -> Option<Seq<u8>>
    decreases hs.len() - i,
{
    if i < 0 || i >= hs.len() {
        None
    } else if same_header_name(hs[i].name@, name) {
        Some(hs[i].value@)
    } else {
        first_value_from(hs, name, i + 1)
    }
}

/// The value a header map gives for `name`: that of the first header so named.
pub open spec fn header_value(hs: Seq<Header>, name: Seq<char>) -> Option<Seq<u8>> {
    first_value_from(hs, name, 0)
}

/// The entry for a header, where it has a value.
pub open spec fn entry(name: Seq<char>, v: Option<Seq<u8>>) -> Seq<(Seq<char>, Seq<u8>)> {
    match v {
        Some(x) => seq![(name, x)],
        None => Seq::empty(),
    }
}

/// The headers as name and value pairs.
pub open spec fn header_pairs(hs: Seq<Header>) -> Seq<(Seq<char>, Seq<u8>)> {
    Seq::new(hs.len(), |i: int| (hs[i].name@, hs[i].value@))
}

/// The headers that travel with a forwarded request: content type,
/// authorization and the two identity headers, each where the request has it.
pub open spec fn forwarded_headers(hs: Seq<Header>) -> Seq<(Seq<char>, Seq<u8>)> {
    entry("content-type"@, header_value(hs, "content-type"@))
        + entry("authorization"@, header_value(hs, "authorization"@))
        + entry("x-user-id"@, header_value(hs, "x-user-id"@))
        + entry("x-user-role"@, header_value(hs, "x-user-role"@))
}

fn lower(c: char) -> (r: char)
    ensures
        r == ascii_lower(c),
{
    if 'A' <= c && c <= 'Z' {
        ((c as u8) + 32) as char
    } else {
        c
    }
}

fn names_match(a: &Vec<char>, b: &Vec<char>) -> (r: bool)
    ensures
        r == same_header_name(a@, b@),
{
    if a.len() != b.len() {
        return false;
    }
    let mut i: usize = 0;
    while i < a.len()
        invariant
            a.len() == b.len(),
            i <= a.len(),
            forall|j: int| 0 <= j < i ==> ascii_lower(#[trigger] a@[j]) == ascii_lower(b@[j]),
        decreases a.len() - i,
    {
        if lower(a[i]) != lower(b[i]) {
            return false;
        }
        i = i + 1;
    }
    true
}

/// The value of the first header named `name`, ignoring ASCII case.
pub fn find_header(headers: &Vec<Header>, name: &str) -> (r: Option<Vec<u8>>)
    ensures
        match r {
            Some(v) => header_value(headers@, name@) == Some(v@),
            None => header_value(headers@, name@) is None,
        },
{
    let want = chars_of(name);
    let mut i: usize = 0;
    while i < headers.len()
        invariant
            want@ == name@,
            i <= headers.len(),
            first_value_from(headers@, name@, 0) == first_value_from(headers@, name@, i as int),
        decreases headers.len() - i,
    {
        let got = chars_of(headers[i].name.as_str());
        if names_match(&got, &want) {
            return Some(headers[i].value.clone());
        }
        i = i + 1;
    }
    None
}

/// How a request is passed on to a service.
pub struct ForwardPlan {
    /// The headers sent along, in this order.
    pub headers: Vec<Header>,
    /// Whether the body is sent: only where it is not empty.
    pub send_body: bool,
}

fn push_entry(out: &mut Vec<Header>, headers: &Vec<Header>, name: &str)
    ensures
        header_pairs(final(out)@) == header_pairs(old(out)@) + entry(name@, header_value(headers@, name@)),
{
    match find_header(headers, name) {
        Some(v) => {
            let ghost before = out@;
            out.push(Header { name: owned(name), value: v });
            assert(header_pairs(out@) == header_pairs(before) + entry(name@, header_value(headers@, name@)));
        },
        None => {},
    }
}

/// Plans the forwarding of a request with these headers and a body of
/// `body_len` bytes; the method and URL go on unchanged.
pub fn proxy_request(headers: &Vec<Header>, body_len: usize) -> (p: ForwardPlan)
    ensures
        header_pairs(p.headers@) == forwarded_headers(headers@),
        p.send_body == (body_len > 0),
{
    let mut out: Vec<Header> = Vec::new();
    assert(header_pairs(out@) == Seq::<(Seq<char>, Seq<u8>)>::empty());
    push_entry(&mut out, headers, "content-type");
    push_entry(&mut out, headers, "authorization");
    push_entry(&mut out, headers, "x-user-id");
    push_entry(&mut out, headers, "x-user-role");
    ForwardPlan { headers: out, send_body: body_len > 0 }
}

/// The headers of a service's answer that the gateway passes back: only its
/// content type; the status and body go back unchanged.
pub fn relayed_headers(headers: &Vec<Header>) -> (r: Vec<Header>)
    ensures
        header_pairs(r@) == entry("content-type"@, header_value(headers@, "content-type"@)),
{
    let mut out: Vec<Header> = Vec::new();
    assert(header_pairs(out@) == Seq::<(Seq<char>, Seq<u8>)>::empty());
    push_entry(&mut out, headers, "content-type");
    assert(Seq::<(Seq<char>, Seq<u8>)>::empty() + entry("content-type"@, header_value(headers@, "content-type"@))
        == entry("content-type"@, header_value(headers@, "content-type"@)));
    out
}

// ---------------------------------------------------------------------------
// Registration

/// How a registration is passed on to the auth service.
pub struct RegisterPlan {
    /// Always `POST`, whatever the method of the incoming request.
    pub method: String,
    /// Only the request's content type, where it has one.
    pub headers: Vec<Header>,
    /// The request's body, sent as it came, even where it is empty.
    pub body: Vec<u8>,
}

/// Plans the forwarding of a registration with these headers and body.
pub fn registration_request(headers: &Vec<Header>, body: Vec<u8>) -> (p: RegisterPlan)
    ensures
        p.method@ == "POST"@,
        header_pairs(p.headers@) == entry("content-type"@, header_value(headers@, "content-type"@)),
        p.body == body,
{
    RegisterPlan { method: owned("POST"), headers: relayed_headers(headers), body }
}

/// The refusal answered when a service cannot be reached.
pub fn upstream_error(message: &str) -> (e: AppError)
    ensures
        e matches AppError::Internal(m) && m@ == "Upstream error: "@ + message@,
{
    AppError::Internal(join2("Upstream error: ", message))
}

/// The role a registration asks for: the string at `role` in the body, or
/// `user` where there is none; a body that is not JSON is refused.
pub open spec fn requested_role(body: Seq<u8>) -> Result<Seq<char>, Seq<char>> {
    match json_text_at(body, "/role"@) {
        Err(m) => Err(m),
        Ok(Some(r)) => Ok(r),
        Ok(None) => Ok("user"@),
    }
}

/// Reads the role from a registration body.
pub fn registration_role(body: &[u8]) -> (r: Result<String, AppError>)
    ensures
        match (r, requested_role(body@)) {
            (Ok(role), Ok(want)) => role@ == want,
            (Err(AppError::BadRequest(m)), Err(want)) => m@ == want,
            _ => false,
        },
{
    match text_at_pointer(body, "/role") {
        Err(m) => Err(AppError::BadRequest(m)),
        Ok(Some(role)) => Ok(role),
        Ok(None) => Ok(owned("user")),
    }
}

/// The profile the gateway creates for a newly registered account.
pub struct ProfileSeed {
    pub user_id: String,
    pub role: String,
    /// `general` for providers, none for everyone else.
    pub service_type: Option<String>,
}

/// Where profiles are created.
pub fn profile_url(urls: &ServiceUrls) -> (url: String)
    ensures
        url@ == urls.user@ + "/users"@,
{
    join2(urls.user.as_str(), "/users")
}

/// After the auth service has answered a registration: the profile to create,
/// where the answer was a success whose JSON body names the new account at
/// `data.user_id`; none otherwise.
pub fn profile_after_registration(role: &str, upstream_success: bool, response_body: &[u8]) -> (p: Option<ProfileSeed>)
    ensures
        match p {
            Some(seed) => upstream_success
                && json_text_at(response_body@, "/data/user_id"@) == Ok::<Option<Seq<char>>, Seq<char>>(Some(seed.user_id@))
                && seed.role@ == role@
                && (role@ == "provider"@ ==> (seed.service_type matches Some(st) && st@ == "general"@))
                && (role@ != "provider"@ ==> seed.service_type is None),
            None => !upstream_success || !(json_text_at(response_body@, "/data/user_id"@) matches Ok(Some(_))),
        },
{
    if !upstream_success {
        return None;
    }
    match text_at_pointer(response_body, "/data/user_id") {
        Ok(Some(user_id)) => {
            let service_type = if str_eq(role, "provider") {
                Some(owned("general"))
            } else {
                None
            };
            Some(ProfileSeed { user_id, role: owned(role), service_type })
        },
        _ => None,
    }
}

} // verus!
