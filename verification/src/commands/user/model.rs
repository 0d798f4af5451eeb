//! The user documents of the single-session administration, and what is
//! shown of them.

use vstd::prelude::*;
use crate::text::copy_opt_text;

verus! {

/// A user as stored.
#[derive(Debug)]
pub struct User {
    pub id: Option<String>,
    pub name: String,
    pub lastname: String,
    pub ci: String,
    pub email: String,
    pub celular: u64,
    pub username: String,
    pub password: String,
    pub rol: u64,
    pub photo: Option<String>,
    pub active: bool,
}

/// The user of the running session, as shown: without user name and
/// password.
#[derive(Debug)]
pub struct PublicUserSession {
    pub id: Option<String>,
    pub name: String,
    pub lastname: String,
    pub ci: String,
    pub email: String,
    pub celular: u64,
    pub rol: u64,
    pub photo: Option<String>,
    pub active: bool,
}

/// A user as a listing reads it from the store: without the password.
#[derive(Debug)]
pub struct UserRow {
    pub id: Option<String>,
    pub name: String,
    pub lastname: String,
    pub ci: String,
    pub email: String,
    pub celular: u64,
    pub username: String,
    pub rol: u64,
    pub photo: Option<String>,
    pub active: bool,
}

/// A user as a listing shows it.
#[derive(Debug)]
pub struct PublicUser {
    pub id: Option<String>,
    pub name: String,
    pub lastname: String,
    pub ci: String,
    pub email: String,
    pub celular: u64,
    pub rol: u64,
    pub username: String,
    pub photo: Option<String>,
    pub active: bool,
}

impl User {
    /// A copy of the user, field for field.
    pub fn duplicate(&self) -> (copy: User)
        ensures
            copy == *self,
    {
        User {
            id: copy_opt_text(&self.id),
            name: self.name.clone(),
            lastname: self.lastname.clone(),
            ci: self.ci.clone(),
            email: self.email.clone(),
            celular: self.celular,
            username: self.username.clone(),
            password: self.password.clone(),
            rol: self.rol,
            photo: copy_opt_text(&self.photo),
            active: self.active,
        }
    }
}

/// What is shown of `user` as the user of the running session.
pub open spec fn spec_public_session(user: User) -> PublicUserSession {
    PublicUserSession {
        id: user.id,
        name: user.name,
        lastname: user.lastname,
        ci: user.ci,
        email: user.email,
        celular: user.celular,
        rol: user.rol,
        photo: user.photo,
        active: user.active,
    }
}

impl PublicUserSession {
    /// What is shown of `user` as the user of the running session:
    /// everything but the user name and the password.
    pub fn from(user: &User) -> (shown: PublicUserSession)
        ensures
            shown == spec_public_session(*user),
    {
        PublicUserSession {
            id: copy_opt_text(&user.id),
            name: user.name.clone(),
            lastname: user.lastname.clone(),
            ci: user.ci.clone(),
            email: user.email.clone(),
            celular: user.celular,
            rol: user.rol,
            photo: copy_opt_text(&user.photo),
            active: user.active,
        }
    }
}

/// What a listing shows of `row`.
pub open spec fn spec_public_user(row: UserRow) -> PublicUser {
    PublicUser {
        id: row.id,
        name: row.name,
        lastname: row.lastname,
        ci: row.ci,
        email: row.email,
        celular: row.celular,
        rol: row.rol,
        username: row.username,
        photo: row.photo,
        active: row.active,
    }
}

impl PublicUser {
    /// What a listing shows of `row`: every field of it.
    pub fn from(row: &UserRow) -> (shown: PublicUser)
        ensures
            shown == spec_public_user(*row),
    {
        PublicUser {
            id: copy_opt_text(&row.id),
            name: row.name.clone(),
            lastname: row.lastname.clone(),
            ci: row.ci.clone(),
            email: row.email.clone(),
            celular: row.celular,
            rol: row.rol,
            username: row.username.clone(),
            photo: copy_opt_text(&row.photo),
            active: row.active,
        }
    }
}

} // verus!
