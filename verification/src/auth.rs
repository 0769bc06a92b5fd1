//! The auth service: the rules for registering, logging in and refreshing,
//! each a protocol of steps between database and token work, and the answer
//! to a token check.

use vstd::prelude::*;
use vstd::utf8::encode_utf8;
use crate::config::JwtConfig;
use crate::errors::AppError;
use crate::roles::{role_name, role_named, UserRole};
use crate::text::{join2, lemma_starts_with_concat, owned, seq_starts_with};
use crate::gateway::bearer_token;
use crate::gateway::extract_token_from_header;
use argon2::password_hash::{rand_core::OsRng, PasswordHash, PasswordHasher, PasswordVerifier, SaltString};
use vstd::pervasive::unreached;

verus! {

/// What a valid token says of its bearer.
pub struct Claims {
    pub sub: u128,
    pub email: String,
    pub role: UserRole,
}

/// A registration as the client sends it.
pub struct RegisterRequest {
    pub email: String,
    pub password: String,
    pub role: String,
}

/// A login as the client sends it.
pub struct LoginRequest {
    pub email: String,
    pub password: String,
}

/// A refresh as the client sends it.
pub struct RefreshRequest {
    pub refresh_token: String,
}

/// An account as stored.
pub struct User {
    pub id: u128,
    pub email: String,
    pub password_hash: String,
    pub role: String,
}

/// The answer to a successful registration, login or refresh.
pub struct AuthResponse {
    pub access_token: String,
    pub refresh_token: String,
    pub token_type: String,
    pub user_id: u128,
    pub email: String,
    pub role: String,
}

/// The answer to a token check.
pub struct ValidateResponse {
    pub valid: bool,
    pub user_id: Option<u128>,
    pub email: Option<String>,
    pub role: Option<String>,
}

// ---------------------------------------------------------------------------
// Passwords

/// What Argon2 (with its default parameters) says when `password` is checked
/// against the PHC string `phc`: `None` where `phc` does not parse as a
/// password hash, else whether the password matches.
pub uninterp spec fn argon2_check(password: Seq<char>, phc: Seq<char>) -> Option<bool>;

/// The message `password_hash::PasswordHash::new` gives for a string that
/// does not parse as a PHC password hash; `None` where it parses.
pub uninterp spec fn phc_parse_error(phc: Seq<char>) -> Option<Seq<char>>;

/// Calls `argon2::password_hash::SaltString::generate` with the operating
/// system's random source, then `PasswordHasher::hash_password` of
/// `Argon2::default()`, and writes the hash as a PHC string. Trusted: the
/// salt is random, so nothing is said of the text itself, but a hash made
/// from `password` parses back and verifies against `password`, and hashing
/// with the default parameters and a generated salt fails only for a
/// password longer than `0xFFFF_FFFF` bytes (`Argon2::verify_inputs`). The
/// default algorithm is Argon2id, and the PHC string is written as `$`, the
/// algorithm's name, `$v=` and the version, then the rest; it parses back.
#[verifier::external_body]
fn argon2_hash(password: &str) -> (r: Result<String, String>)
    ensures
        r matches Ok(h) ==> argon2_check(password@, h@) == Some(true) && phc_parse_error(h@) is None
            && seq_starts_with(h@, "$argon2id$"@),
        encode_utf8(password@).len() <= 0xFFFF_FFFF ==> r is Ok,
{
    let salt = SaltString::generate(&mut OsRng);
    match argon2::Argon2::default().hash_password(password.as_bytes(), &salt) {
        Ok(h) => Ok(h.to_string()),
        Err(e) => Err(e.to_string()),
    }
}

/// Calls `PasswordHash::new` on `phc` and then `PasswordVerifier::verify_password`
/// of `Argon2::default()` with `password`. Trusted: whether `phc` parses, and
/// the parser's message, are `PasswordHash::new`'s, as named by
/// `phc_parse_error`, which reads `phc` alone; where it parses, the outcome
/// is Argon2's, as named by `argon2_check`.
#[verifier::external_body]
fn argon2_verify(password: &str, phc: &str) -> (r: Result<bool, String>)
    ensures
        match phc_parse_error(phc@) {
            Some(m) => (r matches Err(x) && x@ == m) && argon2_check(password@, phc@) is None,
            None => argon2_check(password@, phc@) matches Some(b) && r == Ok::<bool, String>(b),
        },
{
    match PasswordHash::new(phc) {
        Err(e) => Err(e.to_string()),
        Ok(parsed) => Ok(argon2::Argon2::default().verify_password(password.as_bytes(), &parsed).is_ok()),
    }
}

/// The outcome of checking `password` against the stored `hash`: whether it
/// matches, or the message for a hash that does not parse.
pub open spec fn password_check(password: Seq<char>, hash: Seq<char>) -> Result<bool, Seq<char>> {
    match phc_parse_error(hash) {
        Some(m) => Err("Failed to parse hash: "@ + m),
        None => match argon2_check(password, hash) {
            Some(b) => Ok(b),
            None => Ok(false),
        },
    }
}

/// Hashes a password for storage; the hash verifies against the password.
/// Hashing succeeds for every password of at most `0xFFFF_FFFF` bytes.
pub fn hash_password(password: &str) -> (r: Result<String, AppError>)
    ensures
        r matches Ok(h) ==> password_check(password@, h@) == Ok::<bool, Seq<char>>(true)
            && seq_starts_with(h@, "$argon2id$"@),
        encode_utf8(password@).len() <= 0xFFFF_FFFF ==> r is Ok,
        r matches Err(e) ==> (e matches AppError::Internal(m) && seq_starts_with(m@, "Failed to hash password: "@)),
{
    match argon2_hash(password) {
        Ok(h) => Ok(h),
        Err(m) => {
            let msg = join2("Failed to hash password: ", m.as_str());
            proof { lemma_starts_with_concat("Failed to hash password: "@, m@); }
            Err(AppError::Internal(msg))
        },
    }
}

/// Checks a password against a stored hash; a hash that does not parse is an
/// internal error.
pub fn verify_password(password: &str, hash: &str) -> (r: Result<bool, AppError>)
    ensures
        match password_check(password@, hash@) {
            Ok(b) => r == Ok::<bool, AppError>(b),
            Err(m) => r matches Err(AppError::Internal(x)) && x@ == m,
        },
        argon2_check(password@, hash@) matches Some(b) ==> r == Ok::<bool, AppError>(b),
        r matches Err(e) ==> (e matches AppError::Internal(m) && seq_starts_with(m@, "Failed to parse hash: "@)),
{
    match argon2_verify(password, hash) {
        Ok(b) => Ok(b),
        Err(m) => {
            let msg = join2("Failed to parse hash: ", m.as_str());
            proof { lemma_starts_with_concat("Failed to parse hash: "@, m@); }
            Err(AppError::Internal(msg))
        },
    }
}

// ---------------------------------------------------------------------------
// The protocols

/// Where a registration, login or refresh stands.
pub enum AuthStep {
    Start,
    CheckingEmail { role: UserRole },
    CreatingUser { role: UserRole },
    FindingUserByEmail,
    CheckingToken,
    FindingUserById,
    IssuingAccess { user: User, role: UserRole },
    IssuingRefresh { user: User, role: UserRole, access: String },
    Done,
}

/// What the service does next.
pub enum AuthAction {
    CheckEmailExists { email: String },
    CreateUser { email: String, password_hash: String, stored_role: String },
    FindUserByEmail { email: String },
    FindUserById { id: u128 },
    ValidateToken { token: String },
    IssueToken { user_id: u128, email: String, role: UserRole, expiry_hours: i64 },
    Respond(Result<AuthResponse, AppError>),
}

/// What came of the last action.
pub enum AuthEvent {
    Begin,
    EmailChecked(Result<bool, AppError>),
    UserCreated(Result<User, AppError>),
    UserFound(Result<Option<User>, AppError>),
    TokenChecked(Option<Claims>),
    TokenIssued(Result<String, AppError>),
}

/// The event answers the action that led to `step`.
pub open spec fn answers(step: AuthStep, event: AuthEvent) -> bool {
    match step {
        AuthStep::Start => event is Begin,
        AuthStep::CheckingEmail { .. } => event is EmailChecked,
        AuthStep::CreatingUser { .. } => event is UserCreated,
        AuthStep::FindingUserByEmail => event is UserFound,
        AuthStep::CheckingToken => event is TokenChecked,
        AuthStep::FindingUserById => event is UserFound,
        AuthStep::IssuingAccess { .. } => event is TokenIssued,
        AuthStep::IssuingRefresh { .. } => event is TokenIssued,
        AuthStep::Done => false,
    }
}

/// Ends the protocol with `e`, as the last action answered.
pub open spec fn fails_with(next: AuthStep, action: AuthAction, e: AppError) -> bool {
    next is Done && action == AuthAction::Respond(Err(e))
}

/// Ends the protocol with a bad-request refusal saying `m`.
pub open spec fn bad_request(next: AuthStep, action: AuthAction, m: Seq<char>) -> bool {
    &&& next is Done
    &&& action matches AuthAction::Respond(Err(AppError::BadRequest(x)))
    &&& x@ == m
}

/// Ends the protocol with an unauthorized refusal saying `m`.
pub open spec fn unauthorized(next: AuthStep, action: AuthAction, m: Seq<char>) -> bool {
    &&& next is Done
    &&& action matches AuthAction::Respond(Err(AppError::Unauthorized(x)))
    &&& x@ == m
}

/// Ends the protocol with an internal error saying `m`.
pub open spec fn internal(next: AuthStep, action: AuthAction, m: Seq<char>) -> bool {
    &&& next is Done
    &&& action matches AuthAction::Respond(Err(AppError::Internal(x)))
    &&& x@ == m
}

/// Starts issuing tokens for `user`, who holds `role`: first the access token.
pub open spec fn issues_access(config: JwtConfig, user: User, role: UserRole, next: AuthStep, action: AuthAction) -> bool {
    &&& next == AuthStep::IssuingAccess { user, role }
    &&& action == AuthAction::IssueToken {
        user_id: user.id,
        email: user.email,
        role,
        expiry_hours: config.expiry_hours,
    }
}

/// The common end of all three protocols: an access token, then a refresh
/// token, then the answer naming the account as stored.
pub open spec fn token_moves(config: JwtConfig, step: AuthStep, event: AuthEvent, next: AuthStep, action: AuthAction) -> bool {
    match (step, event) {
        (AuthStep::IssuingAccess { user, role }, AuthEvent::TokenIssued(Err(e))) => fails_with(next, action, e),
        (AuthStep::IssuingAccess { user, role }, AuthEvent::TokenIssued(Ok(access))) => {
            &&& next == AuthStep::IssuingRefresh { user, role, access }
            &&& action == AuthAction::IssueToken {
                user_id: user.id,
                email: user.email,
                role,
                expiry_hours: config.refresh_expiry_hours,
            }
        },
        (AuthStep::IssuingRefresh { user, role, access }, AuthEvent::TokenIssued(Err(e))) => fails_with(next, action, e),
        (AuthStep::IssuingRefresh { user, role, access }, AuthEvent::TokenIssued(Ok(refresh))) => {
            &&& next is Done
            &&& action matches AuthAction::Respond(Ok(r))
            &&& r.access_token == access
            &&& r.refresh_token == refresh
            &&& r.token_type@ == "Bearer"@
            &&& r.user_id == user.id
            &&& r.email == user.email
            &&& r.role == user.role
        },
        _ => false,
    }
}

fn token_step(config: &JwtConfig, step: AuthStep, event: AuthEvent) -> (r: (AuthStep, AuthAction))
    requires
        step is IssuingAccess || step is IssuingRefresh,
        answers(step, event),
    ensures
        token_moves(*config, step, event, r.0, r.1),
{
    match step {
        AuthStep::IssuingAccess { user, role } => match event {
            AuthEvent::TokenIssued(Err(e)) => (AuthStep::Done, AuthAction::Respond(Err(e))),
            AuthEvent::TokenIssued(Ok(access)) => {
                let action = AuthAction::IssueToken {
                    user_id: user.id,
                    email: user.email.clone(),
                    role,
                    expiry_hours: config.refresh_expiry_hours,
                };
                (AuthStep::IssuingRefresh { user, role, access }, action)
            },
            _ => unreached(),
        },
        AuthStep::IssuingRefresh { user, role, access } => match event {
            AuthEvent::TokenIssued(Err(e)) => (AuthStep::Done, AuthAction::Respond(Err(e))),
            AuthEvent::TokenIssued(Ok(refresh)) => {
                let response = AuthResponse {
                    access_token: access,
                    refresh_token: refresh,
                    token_type: owned("Bearer"),
                    user_id: user.id,
                    email: user.email,
                    role: user.role,
                };
                (AuthStep::Done, AuthAction::Respond(Ok(response)))
            },
            _ => unreached(),
        },
        _ => unreached(),
    }
}

fn begin_tokens(config: &JwtConfig, user: User, role: UserRole) -> (r: (AuthStep, AuthAction))
    ensures
        issues_access(*config, user, role, r.0, r.1),
{
    let action = AuthAction::IssueToken {
        user_id: user.id,
        email: user.email.clone(),
        role,
        expiry_hours: config.expiry_hours,
    };
    (AuthStep::IssuingAccess { user, role }, action)
}

// ---------------------------------------------------------------------------
// Registration

/// How a registration moves.
pub open spec fn register_moves(config: JwtConfig, p: RegisterRequest, step: AuthStep, event: AuthEvent, next: AuthStep, action: AuthAction) -> bool {
    match (step, event) {
        (AuthStep::Start, AuthEvent::Begin) => {
            if p.email@.len() == 0 || p.password@.len() == 0 {
                bad_request(next, action, "Email and password are required"@)
            } else if encode_utf8(p.password@).len() < 6 {
                bad_request(next, action, "Password must be at least 6 characters"@)
            } else if role_named(p.role@) is None {
                bad_request(next, action, "Invalid role. Must be: user, provider, admin"@)
            } else {
                &&& next == AuthStep::CheckingEmail { role: role_named(p.role@)->0 }
                &&& action == AuthAction::CheckEmailExists { email: p.email }
            }
        },
        (AuthStep::CheckingEmail { role }, AuthEvent::EmailChecked(Err(e))) => fails_with(next, action, e),
        (AuthStep::CheckingEmail { role }, AuthEvent::EmailChecked(Ok(true))) =>
            next is Done && (action matches AuthAction::Respond(Err(AppError::Conflict(m)))
                && m@ == "User with this email already exists"@),
        (AuthStep::CheckingEmail { role }, AuthEvent::EmailChecked(Ok(false))) => {
            ||| {
                &&& next == AuthStep::CreatingUser { role }
                &&& action matches AuthAction::CreateUser { email, password_hash, stored_role }
                &&& email == p.email
                &&& stored_role == p.role
                &&& password_check(p.password@, password_hash@) == Ok::<bool, Seq<char>>(true)
                &&& seq_starts_with(password_hash@, "$argon2id$"@)
            }
            ||| encode_utf8(p.password@).len() > 0xFFFF_FFFF
                && next is Done && (action matches AuthAction::Respond(Err(AppError::Internal(m)))
                && seq_starts_with(m@, "Failed to hash password: "@))
        },
        (AuthStep::CreatingUser { role }, AuthEvent::UserCreated(Err(e))) => fails_with(next, action, e),
        (AuthStep::CreatingUser { role }, AuthEvent::UserCreated(Ok(user))) => issues_access(config, user, role, next, action),
        _ => token_moves(config, step, event, next, action),
    }
}

/// The steps through which a registration passes.
pub open spec fn register_path(step: AuthStep) -> bool {
    step is Start || step is CheckingEmail || step is CreatingUser || step is IssuingAccess || step is IssuingRefresh
}

/// One step of a registration: refuses a malformed request, refuses a taken
/// email, hashes the password, stores the account and issues its tokens.
pub fn register(config: &JwtConfig, payload: &RegisterRequest, step: AuthStep, event: AuthEvent) -> (r: (AuthStep, AuthAction))
    requires
        register_path(step),
        answers(step, event),
    ensures
        register_moves(*config, *payload, step, event, r.0, r.1),
{
    match step {
        AuthStep::Start => {
            if payload.email.as_str().is_empty() || payload.password.as_str().is_empty() {
                return (AuthStep::Done, AuthAction::Respond(Err(AppError::BadRequest(owned("Email and password are required")))));
            }
            if payload.password.as_str().as_bytes().len() < 6 {
                return (AuthStep::Done, AuthAction::Respond(Err(AppError::BadRequest(owned("Password must be at least 6 characters")))));
            }
            match UserRole::from_str(payload.role.as_str()) {
                None => (AuthStep::Done, AuthAction::Respond(Err(AppError::BadRequest(owned("Invalid role. Must be: user, provider, admin"))))),
                Some(role) => (AuthStep::CheckingEmail { role }, AuthAction::CheckEmailExists { email: payload.email.clone() }),
            }
        },
        AuthStep::CheckingEmail { role } => match event {
            AuthEvent::EmailChecked(Err(e)) => (AuthStep::Done, AuthAction::Respond(Err(e))),
            AuthEvent::EmailChecked(Ok(true)) =>
                (AuthStep::Done, AuthAction::Respond(Err(AppError::Conflict(owned("User with this email already exists"))))),
            AuthEvent::EmailChecked(Ok(false)) => match hash_password(payload.password.as_str()) {
                Err(e) => (AuthStep::Done, AuthAction::Respond(Err(e))),
                Ok(h) => (
                    AuthStep::CreatingUser { role },
                    AuthAction::CreateUser { email: payload.email.clone(), password_hash: h, stored_role: payload.role.clone() },
                ),
            },
            _ => unreached(),
        },
        AuthStep::CreatingUser { role } => match event {
            AuthEvent::UserCreated(Err(e)) => (AuthStep::Done, AuthAction::Respond(Err(e))),
            AuthEvent::UserCreated(Ok(user)) => begin_tokens(config, user, role),
            _ => unreached(),
        },
        _ => token_step(config, step, event),
    }
}

// ---------------------------------------------------------------------------
// Login

/// How a login moves.
pub open spec fn login_moves(config: JwtConfig, email: Seq<char>, password: Seq<char>, step: AuthStep, event: AuthEvent, next: AuthStep, action: AuthAction) -> bool {
    match (step, event) {
        (AuthStep::Start, AuthEvent::Begin) =>
            next is FindingUserByEmail && (action matches AuthAction::FindUserByEmail { email: e } && e@ == email),
        (AuthStep::FindingUserByEmail, AuthEvent::UserFound(Err(e))) => fails_with(next, action, e),
        (AuthStep::FindingUserByEmail, AuthEvent::UserFound(Ok(None))) => unauthorized(next, action, "Invalid email or password"@),
        (AuthStep::FindingUserByEmail, AuthEvent::UserFound(Ok(Some(user)))) => match password_check(password, user.password_hash@) {
            Err(m) => next is Done && (action matches AuthAction::Respond(Err(AppError::Internal(x))) && x@ == m),
            Ok(false) => unauthorized(next, action, "Invalid email or password"@),
            Ok(true) => match role_named(user.role@) {
                None => internal(next, action, "Invalid role in database"@),
                Some(role) => issues_access(config, user, role, next, action),
            },
        },
        _ => token_moves(config, step, event, next, action),
    }
}

/// The steps through which a login passes.
pub open spec fn login_path(step: AuthStep) -> bool {
    step is Start || step is FindingUserByEmail || step is IssuingAccess || step is IssuingRefresh
}

/// One step of a login: finds the account by email, checks the password
/// against the stored hash, reads the stored role and issues tokens. An
/// unknown email and a wrong password are refused alike.
pub fn login(config: &JwtConfig, email: &str, password: &str, step: AuthStep, event: AuthEvent) -> (r: (AuthStep, AuthAction))
    requires
        login_path(step),
        answers(step, event),
    ensures
        login_moves(*config, email@, password@, step, event, r.0, r.1),
{
    match step {
        AuthStep::Start => (AuthStep::FindingUserByEmail, AuthAction::FindUserByEmail { email: owned(email) }),
        AuthStep::FindingUserByEmail => match event {
            AuthEvent::UserFound(Err(e)) => (AuthStep::Done, AuthAction::Respond(Err(e))),
            AuthEvent::UserFound(Ok(None)) =>
                (AuthStep::Done, AuthAction::Respond(Err(AppError::Unauthorized(owned("Invalid email or password"))))),
            AuthEvent::UserFound(Ok(Some(user))) => match verify_password(password, user.password_hash.as_str()) {
                Err(e) => (AuthStep::Done, AuthAction::Respond(Err(e))),
                Ok(false) =>
                    (AuthStep::Done, AuthAction::Respond(Err(AppError::Unauthorized(owned("Invalid email or password"))))),
                Ok(true) => match UserRole::from_str(user.role.as_str()) {
                    None => (AuthStep::Done, AuthAction::Respond(Err(AppError::Internal(owned("Invalid role in database"))))),
                    Some(role) => begin_tokens(config, user, role),
                },
            },
            _ => unreached(),
        },
        _ => token_step(config, step, event),
    }
}

// ---------------------------------------------------------------------------
// Refresh

/// How a refresh moves.
pub open spec fn refresh_moves(config: JwtConfig, token: Seq<char>, step: AuthStep, event: AuthEvent, next: AuthStep, action: AuthAction) -> bool {
    match (step, event) {
        (AuthStep::Start, AuthEvent::Begin) =>
            next is CheckingToken && (action matches AuthAction::ValidateToken { token: t } && t@ == token),
        (AuthStep::CheckingToken, AuthEvent::TokenChecked(None)) => unauthorized(next, action, "Invalid or expired refresh token"@),
        (AuthStep::CheckingToken, AuthEvent::TokenChecked(Some(c))) =>
            next is FindingUserById && action == AuthAction::FindUserById { id: c.sub },
        (AuthStep::FindingUserById, AuthEvent::UserFound(Err(e))) => fails_with(next, action, e),
        (AuthStep::FindingUserById, AuthEvent::UserFound(Ok(None))) => unauthorized(next, action, "User no longer exists"@),
        (AuthStep::FindingUserById, AuthEvent::UserFound(Ok(Some(user)))) => match role_named(user.role@) {
            None => internal(next, action, "Invalid role in database"@),
            Some(role) => issues_access(config, user, role, next, action),
        },
        _ => token_moves(config, step, event, next, action),
    }
}

/// The steps through which a refresh passes.
pub open spec fn refresh_path(step: AuthStep) -> bool {
    step is Start || step is CheckingToken || step is FindingUserById || step is IssuingAccess || step is IssuingRefresh
}

/// One step of a refresh: checks the refresh token, finds the account it
/// names and issues a fresh pair of tokens.
pub fn refresh(config: &JwtConfig, refresh_token: &str, step: AuthStep, event: AuthEvent) -> (r: (AuthStep, AuthAction))
    requires
        refresh_path(step),
        answers(step, event),
    ensures
        refresh_moves(*config, refresh_token@, step, event, r.0, r.1),
{
    match step {
        AuthStep::Start => (AuthStep::CheckingToken, AuthAction::ValidateToken { token: owned(refresh_token) }),
        AuthStep::CheckingToken => match event {
            AuthEvent::TokenChecked(None) =>
                (AuthStep::Done, AuthAction::Respond(Err(AppError::Unauthorized(owned("Invalid or expired refresh token"))))),
            AuthEvent::TokenChecked(Some(c)) => (AuthStep::FindingUserById, AuthAction::FindUserById { id: c.sub }),
            _ => unreached(),
        },
        AuthStep::FindingUserById => match event {
            AuthEvent::UserFound(Err(e)) => (AuthStep::Done, AuthAction::Respond(Err(e))),
            AuthEvent::UserFound(Ok(None)) =>
                (AuthStep::Done, AuthAction::Respond(Err(AppError::Unauthorized(owned("User no longer exists"))))),
            AuthEvent::UserFound(Ok(Some(user))) => match UserRole::from_str(user.role.as_str()) {
                None => (AuthStep::Done, AuthAction::Respond(Err(AppError::Internal(owned("Invalid role in database"))))),
                Some(role) => begin_tokens(config, user, role),
            },
            _ => unreached(),
        },
        _ => token_step(config, step, event),
    }
}

// ---------------------------------------------------------------------------
// Token checks

/// The token carried by a check request's authorization header.
pub fn validate(authorization: Option<String>) -> (r: Result<String, AppError>)
    ensures
        match authorization {
            None => r matches Err(AppError::Unauthorized(m)) && m@ == "Missing Authorization header"@,
            Some(h) => match bearer_token(h@) {
                None => r matches Err(AppError::Unauthorized(m)) && m@ == "Invalid authorization format"@,
                Some(t) => r matches Ok(tok) && tok@ == t,
            },
        },
{
    match authorization {
        None => Err(AppError::Unauthorized(owned("Missing Authorization header"))),
        Some(h) => match extract_token_from_header(h.as_str()) {
            None => Err(AppError::Unauthorized(owned("Invalid authorization format"))),
            Some(t) => Ok(t),
        },
    }
}

/// The answer to a token check, from what the token turned out to say.
pub fn validate_token(claims: Option<Claims>) -> (r: ValidateResponse)
    ensures
        match claims {
            None => !r.valid && r.user_id is None && r.email is None && r.role is None,
            Some(c) => r.valid && r.user_id == Some(c.sub) && r.email == Some(c.email)
                && (r.role matches Some(role) && role@ == role_name(c.role)),
        },
{
    match claims {
        None => ValidateResponse { valid: false, user_id: None, email: None, role: None },
        Some(c) => ValidateResponse {
            valid: true,
            user_id: Some(c.sub),
            email: Some(c.email),
            role: Some(c.role.as_string()),
        },
    }
}

} // verus!
