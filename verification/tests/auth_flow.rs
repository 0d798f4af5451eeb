use restaurant_pos::auth::{
    finish_login, hash_password, login, logout, matching_user, require_admin, require_any,
    require_role, require_session, LoginInput,
};
use restaurant_pos::db::User;
use restaurant_pos::error::{ErrorKind, PosError};
use restaurant_pos::state::{AppState, Role};

fn user(name: &str, role: Role, hash: &str, active: bool) -> User {
    User {
        id: "65a000000000000000000001".to_string(),
        tenant_id: "T1".to_string(),
        branch_id: "B1".to_string(),
        name: "Ana Perez".to_string(),
        username: name.to_string(),
        role,
        active,
        password_hash: hash.to_string(),
        created_at: 1_000,
        updated_at: 2_000,
    }
}

fn input(name: &str, password: &str) -> LoginInput {
    LoginInput {
        username: name.to_string(),
        password: password.to_string(),
        tenant_id: "T1".to_string(),
        branch_id: "B1".to_string(),
    }
}

fn state() -> AppState {
    AppState::new("mongodb://127.0.0.1:27017".to_string(), "restaurant".to_string())
}

#[test]
fn login_with_the_right_password_opens_a_session() {
    let hash = hash_password("secreto").unwrap();
    let mut st = state();
    let view = login(&mut st, input("ana", "secreto"), Some(user("ana", Role::ADMIN, &hash, true)), 100)
        .unwrap();
    assert_eq!(view.session_id.len(), 36);
    assert_eq!(view.username, "ana");
    assert_eq!(view.user_id, "65a000000000000000000001");
    assert_eq!(view.tenant_id, "T1");
    assert_eq!(view.branch_id, "B1");
    assert_eq!(view.role, Role::ADMIN);
    assert_eq!(view.expires_at, 100 + 43200);
    let s = require_session(&st, &view.session_id, 101).unwrap();
    assert_eq!(s.username, "ana");
}

#[test]
fn login_with_a_wrong_password_is_refused() {
    let hash = hash_password("secreto").unwrap();
    let mut st = state();
    let r = login(&mut st, input("ana", "otra"), Some(user("ana", Role::ADMIN, &hash, true)), 100);
    assert_eq!(r.unwrap_err(), PosError::BadCredentials);
    assert_eq!(PosError::BadCredentials.kind(), ErrorKind::Auth);
}

#[test]
fn login_against_a_hash_that_is_no_hash_is_refused() {
    let mut st = state();
    let r = login(&mut st, input("ana", "secreto"), Some(user("ana", Role::ADMIN, "secreto", true)), 100);
    assert_eq!(r.unwrap_err(), PosError::BadCredentials);
}

#[test]
fn login_of_an_unknown_or_inactive_user_is_refused() {
    let hash = hash_password("secreto").unwrap();
    let mut st = state();
    assert_eq!(login(&mut st, input("ana", "secreto"), None, 100).unwrap_err(), PosError::UserNotFound);
    let r = login(&mut st, input("ana", "secreto"), Some(user("ana", Role::ADMIN, &hash, false)), 100);
    assert_eq!(r.unwrap_err(), PosError::UserNotFound);
    let r = login(&mut st, input("ana", "secreto"), Some(user("luis", Role::ADMIN, &hash, true)), 100);
    assert_eq!(r.unwrap_err(), PosError::UserNotFound);
}

#[test]
fn matching_user_hands_the_user_back() {
    let u = matching_user(&input("ana", "x"), Some(user("ana", Role::STAFF, "h", true))).unwrap();
    assert_eq!(u.username, "ana");
    assert_eq!(u.password_hash, "h");
}

#[test]
fn finish_login_stores_nothing_without_the_password() {
    let mut st = state();
    let r = finish_login(&mut st, user("ana", Role::STAFF, "h", true), false, "tok".to_string(), 5);
    assert_eq!(r.unwrap_err(), PosError::BadCredentials);
    assert!(st.sessions.get("tok", 6).is_none());
    let v = finish_login(&mut st, user("ana", Role::STAFF, "h", true), true, "tok".to_string(), 5).unwrap();
    assert_eq!(v.session_id, "tok");
    assert_eq!(v.expires_at, 43205);
    let again = finish_login(&mut st, user("luis", Role::STAFF, "h", true), true, "tok".to_string(), 6);
    assert_eq!(again.unwrap_err(), PosError::TokenCollision);
    assert_eq!(st.sessions.get("tok", 6).unwrap().username, "ana");
}

#[test]
fn hashes_of_one_password_differ_and_both_verify() {
    let a = hash_password("admin123").unwrap();
    let b = hash_password("admin123").unwrap();
    assert_ne!(a, b);
    assert_ne!(a, "admin123");
    let mut st = state();
    assert!(login(&mut st, input("ana", "admin123"), Some(user("ana", Role::STAFF, &a, true)), 1).is_ok());
    assert!(login(&mut st, input("ana", "admin123"), Some(user("ana", Role::STAFF, &b, true)), 1).is_ok());
}

#[test]
fn role_checks_tell_missing_from_insufficient() {
    let mut st = state();
    let admin = finish_login(&mut st, user("ana", Role::ADMIN, "h", true), true, "a".to_string(), 10).unwrap();
    let staff = finish_login(&mut st, user("luis", Role::STAFF, "h", true), true, "s".to_string(), 10).unwrap();
    assert!(require_admin(&st, &admin.session_id, 11).is_ok());
    assert_eq!(require_admin(&st, &staff.session_id, 11).unwrap_err(), PosError::NotAuthorized);
    assert_eq!(require_admin(&st, "nobody", 11).unwrap_err(), PosError::SessionInvalid);
    assert_eq!(require_admin(&st, &admin.session_id, 10 + 43200).unwrap_err(), PosError::SessionInvalid);
    assert!(require_any(&st, &staff.session_id, 11).is_ok());
    assert!(require_role(&st, &staff.session_id, Role::STAFF, 11).is_ok());
    assert_eq!(require_role(&st, &admin.session_id, Role::STAFF, 11).unwrap_err(), PosError::NotAuthorized);
    assert_eq!(require_session(&st, &staff.session_id, 10 + 43200).unwrap_err(), PosError::SessionInvalid);
    assert_eq!(PosError::NotAuthorized.kind(), ErrorKind::Auth);
    assert_eq!(PosError::SessionInvalid.kind(), ErrorKind::Auth);
}

#[test]
fn logout_removes_the_session_and_may_be_repeated() {
    let mut st = state();
    let v = finish_login(&mut st, user("ana", Role::ADMIN, "h", true), true, "a".to_string(), 10).unwrap();
    assert!(logout(&mut st, &v.session_id).is_ok());
    assert_eq!(require_session(&st, &v.session_id, 11).unwrap_err(), PosError::SessionInvalid);
    assert!(logout(&mut st, &v.session_id).is_ok());
    assert!(logout(&mut st, "never").is_ok());
}

#[test]
fn messages_are_the_operators() {
    assert_eq!(PosError::SessionInvalid.message(), "Sesión inválida o expirada");
    assert_eq!(PosError::NotAuthorized.message(), "No autorizado: requiere rol ADMIN");
    assert_eq!(PosError::ShiftAlreadyOpen.message(), "Ya existe una caja abierta");
    assert_eq!(PosError::NoOpenShift.message(), "No se puede despachar: no hay caja abierta");
    assert_eq!(PosError::Store.kind(), ErrorKind::Store);
    assert_eq!(PosError::OrderNotFound.kind(), ErrorKind::NotFound);
    assert_eq!(PosError::InvalidAmount.kind(), ErrorKind::Validation);
    assert_eq!(PosError::ShiftClosed.kind(), ErrorKind::Conflict);
}
