//! Logging in and out, and the checks that every command starts with.

use vstd::prelude::*;
use argon2::PasswordHasher;
use argon2::PasswordVerifier;
use crate::db::User;
use crate::error::PosError;
use crate::state::{created_session, lookup, AppState, Role, Session, SessionData};

verus! {

/// What a user types in to log in.
#[derive(Debug)]
pub struct LoginInput {
    pub username: String,
    pub password: String,
    pub tenant_id: String,
    pub branch_id: String,
}

/// A session as handed to the client.
#[derive(Debug)]
pub struct SessionView {
    pub session_id: String,
    pub user_id: String,
    pub username: String,
    pub role: Role,
    pub tenant_id: String,
    pub branch_id: String,
    pub expires_at: u64,
}

impl View for SessionView {
    type V = SessionData;

    open spec fn view(&self) -> SessionData {
        SessionData {
            session_id: self.session_id@,
            user_id: self.user_id@,
            username: self.username@,
            role: self.role,
            tenant_id: self.tenant_id@,
            branch_id: self.branch_id@,
            expires_at: self.expires_at,
        }
    }
}

/// Whether Argon2 with its default parameters accepts `password` for the
/// stored hash `hash`: `hash` parses as a PHC string and hashing `password`
/// with the salt and parameters written in it gives the output written in it.
pub uninterp spec fn argon2_accepts(hash: Seq<char>, password: Seq<char>) -> bool;

/// Parses `hash` with `password_hash::PasswordHash::new` and checks `password`
/// against it with `argon2::Argon2::default().verify_password`. A hash that
/// does not parse is accepted for no password. The answer depends on the two
/// texts alone.
#[verifier::external_body]
pub(crate) fn verify_password(hash: &str, password: &str) -> (ok: bool)
    ensures
        ok == argon2_accepts(hash@, password@),
{
    match password_hash::PasswordHash::new(hash) {
        Ok(parsed) => argon2::Argon2::default().verify_password(password.as_bytes(), &parsed).is_ok(),
        Err(_) => false,
    }
}

/// Hashes `plain` with `argon2::Argon2::default().hash_password` under a salt
/// drawn by `password_hash::SaltString::generate` from the system's random
/// source, and returns the PHC string, or the text of the hasher's error.
/// Which hash comes out is left open; whichever it is, Argon2 accepts `plain`
/// for it. The call does not return where the system has no random bytes to
/// give.
#[verifier::external_body]
pub fn hash_password(plain: &str) -> (hashed: Result<String, String>)
    ensures
        hashed matches Ok(h) ==> argon2_accepts(h@, plain@),
{
    let salt = password_hash::SaltString::generate(&mut password_hash::rand_core::OsRng);
    argon2::Argon2::default().hash_password(plain.as_bytes(), &salt).map(|p| p.to_string()).map_err(
        |e| e.to_string(),
    )
}

/// Whether `user` is the active user that `input` names.
pub open spec fn names_user(input: LoginInput, user: User) -> bool {
    &&& user.active
    &&& user.tenant_id@ == input.tenant_id@
    &&& user.branch_id@ == input.branch_id@
    &&& user.username@ == input.username@
}

/// The session that `user` is given before it is stored: no token yet, and
/// no expiry.
pub open spec fn identity_of(user: User) -> SessionData {
    SessionData {
        session_id: Seq::empty(),
        user_id: user.id@,
        username: user.username@,
        role: user.role,
        tenant_id: user.tenant_id@,
        branch_id: user.branch_id@,
        expires_at: 0,
    }
}

/// The user that the store returned for `input`, if it is the active user
/// that `input` names; `UserNotFound` if the store returned none or another.
pub fn matching_user(input: &LoginInput, found: Option<User>) -> (matched: Result<User, PosError>)
    ensures
        match found {
            Some(user) => if names_user(*input, user) {
                matched == Ok::<User, PosError>(user)
            } else {
                matched == Err::<User, PosError>(PosError::UserNotFound)
            },
            None => matched == Err::<User, PosError>(PosError::UserNotFound),
        },
{
    match found {
        Some(user) => {
            if user.active && user.tenant_id == input.tenant_id && user.branch_id
                == input.branch_id && user.username == input.username {
                Ok(user)
            } else {
                Err(PosError::UserNotFound)
            }
        },
        None => Err(PosError::UserNotFound),
    }
}

/// Ends a login once the password has been checked: with `password_ok` a
/// session for `user` is stored from `now` under `token` and handed back;
/// without it the login fails with `BadCredentials` and nothing is stored.
pub fn finish_login(
    state: &mut AppState,
    user: User,
    password_ok: bool,
    token: String,
    now: u64,
) -> (outcome: Result<SessionView, PosError>)
    ensures
        final(state).mongo_uri == old(state).mongo_uri,
        final(state).db_name == old(state).db_name,
        !password_ok ==> outcome == Err::<SessionView, PosError>(PosError::BadCredentials)
            && final(state).sessions@ == old(state).sessions@,
        password_ok && old(state).sessions@.contains_key(token@) ==> outcome == Err::<
            SessionView,
            PosError,
        >(PosError::TokenCollision) && final(state).sessions@ == old(state).sessions@,
        password_ok && !old(state).sessions@.contains_key(token@) ==> outcome is Ok
            && outcome->Ok_0@ == created_session(identity_of(user), token@, now)
            && final(state).sessions@ == old(state).sessions@.insert(token@, outcome->Ok_0@),
{
    if !password_ok {
        return Err(PosError::BadCredentials);
    }
    let identity = Session {
        session_id: String::new(),
        user_id: user.id,
        username: user.username,
        role: user.role,
        tenant_id: user.tenant_id,
        branch_id: user.branch_id,
        expires_at: 0,
    };
    match state.sessions.create_with_token(identity, token, now) {
        Ok(created) => Ok(
            SessionView {
                session_id: created.session_id,
                user_id: created.user_id,
                username: created.username,
                role: created.role,
                tenant_id: created.tenant_id,
                branch_id: created.branch_id,
                expires_at: created.expires_at,
            },
        ),
        Err(e) => Err(e),
    }
}

/// Logs in the user that `input` names. `found` is what the store returned for
/// the active user with that name in that tenant and branch.
///
/// The login fails with `UserNotFound` if there is no such user, and with
/// `BadCredentials` if Argon2 does not accept the password for the stored
/// hash. Otherwise a session is stored from `now` for the fixed lifetime under
/// a freshly drawn token; should that token be in use, nothing is stored.
pub fn login(state: &mut AppState, input: LoginInput, found: Option<User>, now: u64) -> (outcome:
    Result<SessionView, PosError>)
    ensures
        final(state).mongo_uri == old(state).mongo_uri,
        final(state).db_name == old(state).db_name,
        match outcome {
            Ok(session) => {
                &&& found matches Some(user)
                &&& names_user(input, user)
                &&& argon2_accepts(user.password_hash@, input.password@)
                &&& !old(state).sessions@.contains_key(session.session_id@)
                &&& session@ == created_session(identity_of(user), session.session_id@, now)
                &&& final(state).sessions@ == old(state).sessions@.insert(
                    session.session_id@,
                    session@,
                )
            },
            Err(e) => {
                &&& final(state).sessions@ == old(state).sessions@
                &&& e == PosError::UserNotFound <==> !(found matches Some(user) && names_user(
                    input,
                    user,
                ))
                &&& e == PosError::BadCredentials <==> (found matches Some(user) && names_user(
                    input,
                    user,
                ) && !argon2_accepts(user.password_hash@, input.password@))
                &&& e == PosError::UserNotFound || e == PosError::BadCredentials || e
                    == PosError::TokenCollision
            },
        },
{
    let user = match matching_user(&input, found) {
        Ok(user) => user,
        Err(e) => {
            return Err(e);
        },
    };
    let password_ok = verify_password(user.password_hash.as_str(), input.password.as_str());
    let token = crate::state::fresh_token();
    finish_login(state, user, password_ok, token, now)
}

/// Logs out: removes the session under `session_id`, expired or not. It is no
/// error if there is none.
pub fn logout(state: &mut AppState, session_id: &str) -> (outcome: Result<(), PosError>)
    ensures
        outcome is Ok,
        final(state).sessions@ == old(state).sessions@.remove(session_id@),
        final(state).mongo_uri == old(state).mongo_uri,
        final(state).db_name == old(state).db_name,
{
    state.sessions.delete(session_id);
    Ok(())
}

/// What a check for the role `role` answers at `now` for the token `token`:
/// the session if it is live and has that role, `SessionInvalid` if there is
/// no live session, `NotAuthorized` if its role is another.
pub open spec fn role_check(
    sessions: Map<Seq<char>, SessionData>,
    token: Seq<char>,
    role: Role,
    now: u64,
) -> Result<SessionData, PosError> {
    match lookup(sessions, token, now) {
        Some(session) => if session.role == role {
            Ok(session)
        } else {
            Err(PosError::NotAuthorized)
        },
        None => Err(PosError::SessionInvalid),
    }
}

/// Whether `answer` is `expected`, with the session taken by what it holds.
pub open spec fn answers(answer: Result<Session, PosError>, expected: Result<SessionData, PosError>) -> bool {
    match answer {
        Ok(session) => expected == Ok::<SessionData, PosError>(session@),
        Err(e) => expected == Err::<SessionData, PosError>(e),
    }
}

/// The live session under `session_id` at `now`; `SessionInvalid` if the
/// token is unknown or the session has expired.
pub fn require_session(state: &AppState, session_id: &str, now: u64) -> (answer: Result<
    Session,
    PosError,
>)
    ensures
        match answer {
            Ok(session) => lookup(state.sessions@, session_id@, now) == Some(session@),
            Err(e) => e == PosError::SessionInvalid && lookup(state.sessions@, session_id@, now)
                is None,
        },
{
    match state.sessions.get(session_id, now) {
        Some(session) => Ok(session),
        None => Err(PosError::SessionInvalid),
    }
}

/// The live session under `session_id` at `now` if its role is `role`.
pub fn require_role(state: &AppState, session_id: &str, role: Role, now: u64) -> (answer: Result<
    Session,
    PosError,
>)
    ensures
        answers(answer, role_check(state.sessions@, session_id@, role, now)),
{
    match state.sessions.get(session_id, now) {
        Some(session) => {
            if session.role == role {
                Ok(session)
            } else {
                Err(PosError::NotAuthorized)
            }
        },
        None => Err(PosError::SessionInvalid),
    }
}

/// The live session under `session_id` at `now` if it is an administrator's.
pub fn require_admin(state: &AppState, session_id: &str, now: u64) -> (answer: Result<
    Session,
    PosError,
>)
    ensures
        answers(answer, role_check(state.sessions@, session_id@, Role::ADMIN, now)),
{
    require_role(state, session_id, Role::ADMIN, now)
}

/// The live session under `session_id` at `now`, whatever its role.
pub fn require_any(state: &AppState, session_id: &str, now: u64) -> (answer: Result<
    Session,
    PosError,
>)
    ensures
        match answer {
            Ok(session) => lookup(state.sessions@, session_id@, now) == Some(session@),
            Err(e) => e == PosError::SessionInvalid && lookup(state.sessions@, session_id@, now)
                is None,
        },
{
    require_session(state, session_id, now)
}

} // verus!
