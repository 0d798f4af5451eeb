//! Users: who may log in, and how they are created and changed.

use vstd::prelude::*;
use crate::auth::{argon2_accepts, hash_password, require_role, role_check};
use crate::db::{NewUser, UpdateUser, User, UserView};
use crate::error::PosError;
use crate::orders::{page_window, PageWindow};
use crate::state::{clock_secs, AppState, Role, SessionData};
use crate::text::{contains_text, has_part, is_object_id, new_object_id, spec_is_object_id};

verus! {

/// One page of a listing.
#[derive(Debug)]
pub struct Page<T> {
    pub data: Vec<T>,
    /// How many entries the whole listing has.
    pub total: i64,
    pub page: i64,
    pub page_size: i64,
}

/// Why a request that only an administrator may make is refused at `now`, if
/// it is.
pub open spec fn admin_refusal(
    sessions: Map<Seq<char>, SessionData>,
    session_id: Seq<char>,
    now: i64,
) -> Option<PosError> {
    match role_check(sessions, session_id, Role::ADMIN, clock_secs(now)) {
        Ok(_) => None,
        Err(e) => Some(e),
    }
}

/// Checks that the session `session_id` is live at `now` and an
/// administrator's.
pub fn check_admin(state: &AppState, session_id: &str, now: i64) -> (result: Result<(), PosError>)
    ensures
        result == (match admin_refusal(state.sessions@, session_id@, now) {
            Some(e) => Err::<(), PosError>(e),
            None => Ok::<(), PosError>(()),
        }),
{
    match require_role(state, session_id, Role::ADMIN, clock_secs(now)) {
        Ok(_) => Ok(()),
        Err(e) => Err(e),
    }
}

/// The user that `payload` asks for, with the password hash `hash`, under
/// the identifier `id`, created at `now`.
pub fn user_from(payload: NewUser, hash: String, id: String, now: i64) -> (user: User)
    ensures
        user == (User {
            id,
            tenant_id: payload.tenant_id,
            branch_id: payload.branch_id,
            name: payload.name,
            username: payload.username,
            role: payload.role,
            active: payload.active,
            password_hash: hash,
            created_at: now,
            updated_at: now,
        }),
{
    User {
        id,
        tenant_id: payload.tenant_id,
        branch_id: payload.branch_id,
        name: payload.name,
        username: payload.username,
        role: payload.role,
        active: payload.active,
        password_hash: hash,
        created_at: now,
        updated_at: now,
    }
}

/// Makes the user that `payload` asks for, at `now`, in milliseconds since
/// the epoch. Only an administrator may: otherwise the request is refused
/// with `SessionInvalid` or `NotAuthorized`. A password that the hasher does
/// not take is refused with `PasswordRejected`. The user handed back has a
/// newly made identifier and a hash that Argon2 accepts for the password, and
/// is the one to store.
pub fn create_user(state: &AppState, session_id: &str, now: i64, payload: NewUser) -> (result:
    Result<User, PosError>)
    ensures
        match result {
            Ok(user) => {
                &&& admin_refusal(state.sessions@, session_id@, now) is None
                &&& spec_is_object_id(user.id@)
                &&& argon2_accepts(user.password_hash@, payload.password@)
                &&& user == (User {
                    id: user.id,
                    tenant_id: payload.tenant_id,
                    branch_id: payload.branch_id,
                    name: payload.name,
                    username: payload.username,
                    role: payload.role,
                    active: payload.active,
                    password_hash: user.password_hash,
                    created_at: now,
                    updated_at: now,
                })
            },
            Err(e) => match admin_refusal(state.sessions@, session_id@, now) {
                Some(why) => e == why,
                None => e == PosError::PasswordRejected,
            },
        },
{
    match check_admin(state, session_id, now) {
        Ok(()) => {},
        Err(e) => {
            return Err(e);
        },
    }
    let hash = match hash_password(payload.password.as_str()) {
        Ok(hash) => hash,
        Err(_) => {
            return Err(PosError::PasswordRejected);
        },
    };
    Ok(user_from(payload, hash, new_object_id(), now))
}

/// Whether the store's message names a duplicate key, which it does with
/// the code `E11000`.
pub fn is_duplicate_key(message: &str) -> (duplicate: bool)
    ensures
        duplicate == has_part(message@, "E11000"@),
{
    contains_text(message, "E11000")
}

/// What a failure of the store comes to when a user was offered to it: the
/// user name is taken if the store's message names a duplicate key, which it
/// does with the code `E11000`; anything else is a store failure.
pub fn user_store_failure(message: &str) -> (e: PosError)
    ensures
        e == (if has_part(message@, "E11000"@) {
            PosError::UsernameTaken
        } else {
            PosError::Store
        }),
{
    if is_duplicate_key(message) {
        PosError::UsernameTaken
    } else {
        PosError::Store
    }
}

/// What to list of the users of a tenant and branch.
#[derive(Debug)]
pub struct UserQuery {
    pub tenant_id: String,
    pub branch_id: String,
    /// A text that the name or the user name must hold, whatever the case.
    pub search: Option<String>,
    /// Whether only active users are listed.
    pub only_active: bool,
    pub window: PageWindow,
}

/// The search text asked for, unless it is empty.
pub open spec fn spec_search(search: Option<String>) -> Option<String> {
    match search {
        Some(s) => if s@.len() == 0 {
            None
        } else {
            Some(s)
        },
        None => None,
    }
}

/// The search text asked for, unless it is empty.
pub fn search_text(search: Option<String>) -> (kept: Option<String>)
    ensures
        kept == spec_search(search),
{
    match search {
        Some(s) => {
            if s.as_str().is_empty() {
                None
            } else {
                Some(s)
            }
        },
        None => None,
    }
}

/// What to ask the store for to list users. Only an administrator may list
/// them. An empty search text is no search, only active users are listed
/// if that is asked for, and a page has twenty users unless another size is
/// asked for.
pub fn list_users(
    state: &AppState,
    session_id: &str,
    now: i64,
    tenant_id: String,
    branch_id: String,
    search: Option<String>,
    page: Option<i64>,
    page_size: Option<i64>,
    only_active: Option<bool>,
) -> (result: Result<UserQuery, PosError>)
    ensures
        result == (match admin_refusal(state.sessions@, session_id@, now) {
            Some(e) => Err::<UserQuery, PosError>(e),
            None => Ok::<UserQuery, PosError>(
                UserQuery {
                    tenant_id,
                    branch_id,
                    search: spec_search(search),
                    only_active: only_active == Some(true),
                    window: PageWindow {
                        page: crate::orders::spec_page_number(page),
                        size: crate::orders::spec_page_size(page_size, 20),
                        skip: crate::orders::spec_page_skip(
                            crate::orders::spec_page_number(page),
                            crate::orders::spec_page_size(page_size, 20),
                        ),
                    },
                },
            ),
        }),
{
    match check_admin(state, session_id, now) {
        Ok(()) => {},
        Err(e) => {
            return Err(e);
        },
    }
    let only_active = match only_active {
        Some(flag) => flag,
        None => false,
    };
    Ok(
        UserQuery {
            tenant_id,
            branch_id,
            search: search_text(search),
            only_active,
            window: page_window(page, page_size, 20),
        },
    )
}

/// The page of users that the store returned, as shown.
pub fn users_page(rows: Vec<User>, total: i64, window: PageWindow) -> (page: Page<UserView>)
    ensures
        page.total == total,
        page.page == window.page,
        page.page_size == window.size,
        page.data@.len() == rows@.len(),
        forall|k: int|
            0 <= k < rows@.len() ==> #[trigger] page.data@[k] == <UserView as vstd::std_specs::convert::FromSpec<
                User,
            >>::from_spec(rows@[k]),
{
    let ghost all = rows@;
    let mut source = rows;
    let mut data: Vec<UserView> = Vec::new();
    while source.len() > 0
        invariant
            source@.len() + data@.len() == all.len(),
            source@ == all.take(source@.len() as int),
            forall|k: int|
                0 <= k < data@.len() ==> #[trigger] data@[k] == <UserView as vstd::std_specs::convert::FromSpec<
                    User,
                >>::from_spec(all[source@.len() + k]),
        decreases source@.len(),
    {
        let user = source.pop().unwrap();
        data.insert(0, UserView::from(user));
    }
    Page { data, total, page: window.page, page_size: window.size }
}

/// The text that a change sets, or the one kept.
pub open spec fn pick(change: Option<String>, kept: String) -> String {
    match change {
        Some(v) => v,
        None => kept,
    }
}

/// The user `user` after the changes `changes`, with the password hash
/// `hash` if a new one was made, last changed at `now`.
pub open spec fn changed_user(user: User, changes: UpdateUser, hash: Option<String>, now: i64) -> User {
    User {
        name: pick(changes.name, user.name),
        username: pick(changes.username, user.username),
        role: match changes.role {
            Some(r) => r,
            None => user.role,
        },
        active: match changes.active {
            Some(a) => a,
            None => user.active,
        },
        password_hash: pick(hash, user.password_hash),
        updated_at: now,
        ..user
    }
}

/// The user `user` after the changes `changes`: each field that a change
/// names takes the value named, every other field stays, and the user is
/// last changed at `now`. `hash` is the hash of the new password, if one is
/// set.
pub fn apply_user_changes(user: User, changes: UpdateUser, hash: Option<String>, now: i64) -> (after:
    User)
    ensures
        after == changed_user(user, changes, hash, now),
{
    User {
        id: user.id,
        tenant_id: user.tenant_id,
        branch_id: user.branch_id,
        name: match changes.name {
            Some(v) => v,
            None => user.name,
        },
        username: match changes.username {
            Some(v) => v,
            None => user.username,
        },
        role: match changes.role {
            Some(r) => r,
            None => user.role,
        },
        active: match changes.active {
            Some(a) => a,
            None => user.active,
        },
        password_hash: match hash {
            Some(v) => v,
            None => user.password_hash,
        },
        created_at: user.created_at,
        updated_at: now,
    }
}

/// Changes the user `user_id` at `now`, in milliseconds since the epoch.
/// `current` is what the store returned for `user_id`.
///
/// The change is refused, in this order: unless the session is an
/// administrator's; with `InvalidId` if `user_id` is not written as an
/// identifier; with `PasswordRejected` if a new password is set that the
/// hasher does not take; with `NoSuchUser` if the store has no such user.
/// Otherwise the user is handed back as changed; a new password is stored
/// as a hash that Argon2 accepts for it.
pub fn update_user(
    state: &AppState,
    session_id: &str,
    now: i64,
    user_id: &str,
    changes: UpdateUser,
    current: Option<User>,
) -> (result: Result<User, PosError>)
    ensures
        match admin_refusal(state.sessions@, session_id@, now) {
            Some(e) => result == Err::<User, PosError>(e),
            None => if !spec_is_object_id(user_id@) {
                result == Err::<User, PosError>(PosError::InvalidId)
            } else {
                match result {
                    Ok(after) => {
                        &&& current matches Some(user)
                        &&& match changes.new_password {
                            Some(password) => argon2_accepts(after.password_hash@, password@)
                                && after == changed_user(
                                user,
                                changes,
                                Some(after.password_hash),
                                now,
                            ),
                            None => after == changed_user(user, changes, None, now),
                        }
                    },
                    Err(e) => {
                        ||| e == PosError::PasswordRejected && changes.new_password is Some
                        ||| e == PosError::NoSuchUser && current is None
                    },
                }
            },
        },
{
    match check_admin(state, session_id, now) {
        Ok(()) => {},
        Err(e) => {
            return Err(e);
        },
    }
    if !is_object_id(user_id) {
        return Err(PosError::InvalidId);
    }
    let hash = match &changes.new_password {
        Some(password) => match hash_password(password.as_str()) {
            Ok(hash) => Some(hash),
            Err(_) => {
                return Err(PosError::PasswordRejected);
            },
        },
        None => None,
    };
    match current {
        Some(user) => Ok(apply_user_changes(user, changes, hash, now)),
        None => Err(PosError::NoSuchUser),
    }
}

/// Sets whether the user `user_id` is active, and nothing else of the user
/// but the moment of the change. It is refused as any change of a user is.
pub fn toggle_user_active(
    state: &AppState,
    session_id: &str,
    now: i64,
    user_id: &str,
    active: bool,
    current: Option<User>,
) -> (result: Result<User, PosError>)
    ensures
        result == (match admin_refusal(state.sessions@, session_id@, now) {
            Some(e) => Err::<User, PosError>(e),
            None => if !spec_is_object_id(user_id@) {
                Err::<User, PosError>(PosError::InvalidId)
            } else {
                match current {
                    Some(user) => Ok::<User, PosError>(User { active, updated_at: now, ..user }),
                    None => Err::<User, PosError>(PosError::NoSuchUser),
                }
            },
        }),
{
    let changes = UpdateUser {
        name: None,
        username: None,
        role: None,
        active: Some(active),
        new_password: None,
    };
    update_user(state, session_id, now, user_id, changes, current)
}

/// The user `user_id` as shown. `found` is what the store returned for
/// `user_id`. The request is refused unless the session is an
/// administrator's, with `InvalidId` if `user_id` is not written as an
/// identifier, and with `NoSuchUser` if the store has no such user.
pub fn get_user_by_id(
    state: &AppState,
    session_id: &str,
    now: i64,
    user_id: &str,
    found: Option<User>,
) -> (result: Result<UserView, PosError>)
    ensures
        result == (match admin_refusal(state.sessions@, session_id@, now) {
            Some(e) => Err::<UserView, PosError>(e),
            None => if !spec_is_object_id(user_id@) {
                Err::<UserView, PosError>(PosError::InvalidId)
            } else {
                match found {
                    Some(user) => Ok::<UserView, PosError>(
                        <UserView as vstd::std_specs::convert::FromSpec<User>>::from_spec(user),
                    ),
                    None => Err::<UserView, PosError>(PosError::NoSuchUser),
                }
            },
        }),
{
    match check_admin(state, session_id, now) {
        Ok(()) => {},
        Err(e) => {
            return Err(e);
        },
    }
    if !is_object_id(user_id) {
        return Err(PosError::InvalidId);
    }
    match found {
        Some(user) => Ok(UserView::from(user)),
        None => Err(PosError::NoSuchUser),
    }
}

} // verus!
