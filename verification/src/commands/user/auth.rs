//! Logging in and out with one session for the whole process.

use vstd::prelude::*;
use vstd::string::StringExecFns;
use crate::commands::user::model::{spec_public_session, PublicUserSession, User};
use crate::error::PosError;

verus! {

/// What a user types in to log in.
#[derive(Debug)]
pub struct LoginData {
    pub username: String,
    pub password: String,
}

/// The session of the process: the user who is logged in, if one is.
#[derive(Debug)]
pub struct Session {
    pub user: Option<User>,
}

impl Default for Session {
    fn default() -> (session: Session)
        ensures
            session.user is None,
    {
        Session { user: None }
    }
}

/// Whether `user` is the one that `data` names, with the password that
/// `data` gives.
pub open spec fn credentials_match(data: LoginData, user: User) -> bool {
    user.username@ == data.username@ && user.password@ == data.password@
}

/// The greeting for the user named `username`.
pub open spec fn welcome(username: Seq<char>) -> Seq<char> {
    "Bienvenido, "@ + username
}

/// Logs in the user that `data` names. `found` is what the store returned
/// for that user name and password. If it is a user with that name and
/// password, the user becomes the user of the session and is greeted;
/// otherwise the login fails with `BadCredentials` and the session stays as
/// it was.
pub fn login_user(data: LoginData, found: Option<User>, session: &mut Session) -> (result: Result<
    String,
    PosError,
>)
    ensures
        match found {
            Some(user) => if credentials_match(data, user) {
                &&& result matches Ok(greeting)
                &&& greeting@ == welcome(user.username@)
                &&& final(session).user == Some(user)
            } else {
                result == Err::<String, PosError>(PosError::BadCredentials) && *final(session) == *old(
                    session,
                )
            },
            None => result == Err::<String, PosError>(PosError::BadCredentials) && *final(session)
                == *old(session),
        },
{
    match found {
        Some(user) => {
            if user.username == data.username && user.password == data.password {
                let mut greeting = "Bienvenido, ".to_owned();
                greeting.append(user.username.as_str());
                session.user = Some(user);
                Ok(greeting)
            } else {
                Err(PosError::BadCredentials)
            }
        },
        None => Err(PosError::BadCredentials),
    }
}

/// Logs out: the session has no user afterwards.
pub fn logout_user(session: &mut Session) -> (result: Result<(), PosError>)
    ensures
        result is Ok,
        final(session).user is None,
{
    session.user = None;
    Ok(())
}

/// The user of the session, as shown; `SessionInvalid` if nobody is logged
/// in.
pub fn get_current_user(session: &Session) -> (result: Result<PublicUserSession, PosError>)
    ensures
        result == (match session.user {
            Some(user) => Ok::<PublicUserSession, PosError>(spec_public_session(user)),
            None => Err::<PublicUserSession, PosError>(PosError::SessionInvalid),
        }),
{
    match &session.user {
        Some(user) => Ok(PublicUserSession::from(user)),
        None => Err(PosError::SessionInvalid),
    }
}

} // verus!
