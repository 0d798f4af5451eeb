use restaurant_pos::auth::{login, LoginInput};
use restaurant_pos::commands::user::auth::{get_current_user, login_user, logout_user, LoginData};
use restaurant_pos::commands::user::auth::Session as ProcessSession;
use restaurant_pos::commands::user::crud::{list_users as list_rows, public_users};
use restaurant_pos::commands::user::model::{PublicUser, PublicUserSession, User as PlainUser, UserRow};
use restaurant_pos::db::{
    bootstrap_default_admin, NewProduct, NewUser, Product, ProductView, UpdateProduct, UpdateUser,
    User, UserView,
};
use restaurant_pos::error::PosError;
use restaurant_pos::orders::PageWindow;
use restaurant_pos::products::{
    apply_product_changes, create_product, get_product_by_id, list_products, products_page,
    update_product,
};
use restaurant_pos::reports::{
    expense_create, expense_delete, expenses_list, report_monthly_pnl, report_profit_and_loss,
    report_range, shifts_query, MonthRow, NewExpense, Point,
};
use restaurant_pos::dates::CalendarDay;
use restaurant_pos::state::{AppState, Role, Session};
use restaurant_pos::users::{
    apply_user_changes, check_admin, create_user, get_user_by_id, list_users, search_text,
    toggle_user_active, update_user, user_from, user_store_failure, users_page,
};

const ID: &str = "65a000000000000000000001";

fn state() -> AppState {
    let mut st = AppState::new("uri".to_string(), "db".to_string());
    for (tok, role) in [("adm", Role::ADMIN), ("tok", Role::STAFF)] {
        let identity = Session {
            session_id: String::new(),
            user_id: "u1".to_string(),
            username: "ana".to_string(),
            role,
            tenant_id: "T1".to_string(),
            branch_id: "B1".to_string(),
            expires_at: 0,
        };
        st.sessions.create_with_token(identity, tok.to_string(), 0).unwrap();
    }
    st
}

fn new_user(password: &str) -> NewUser {
    NewUser {
        tenant_id: "T1".into(),
        branch_id: "B1".into(),
        name: "Luis".into(),
        username: "luis".into(),
        role: Role::STAFF,
        password: password.into(),
        active: true,
    }
}

fn stored_user() -> User {
    user_from(new_user("x"), "hash".into(), ID.into(), 1_500)
}

fn product() -> Product {
    Product {
        id: ID.into(),
        tenant_id: "T1".into(),
        branch_id: "B1".into(),
        name: "Alitas".into(),
        photo_base64: "p".into(),
        cost: 10,
        price: 25,
        description: "d".into(),
        category: "COMIDA".into(),
        created_at: 2_000,
        updated_at: 3_999,
    }
}

#[test]
fn only_administrators_create_users() {
    let st = state();
    assert_eq!(check_admin(&st, "adm", 1), Ok(()));
    assert_eq!(check_admin(&st, "tok", 1), Err(PosError::NotAuthorized));
    assert_eq!(check_admin(&st, "x", 1), Err(PosError::SessionInvalid));
    assert_eq!(create_user(&st, "tok", 1, new_user("p")).unwrap_err(), PosError::NotAuthorized);
    assert_eq!(create_user(&st, "x", 1, new_user("p")).unwrap_err(), PosError::SessionInvalid);
    let u = create_user(&st, "adm", 7_000, new_user("clave")).unwrap();
    assert_eq!(u.id.len(), 24);
    assert_eq!(u.username, "luis");
    assert_eq!(u.role, Role::STAFF);
    assert!(u.active);
    assert_eq!((u.created_at, u.updated_at), (7_000, 7_000));
    assert_ne!(u.password_hash, "clave");
    let mut st2 = state();
    let input = LoginInput { username: "luis".into(), password: "clave".into(), tenant_id: "T1".into(), branch_id: "B1".into() };
    assert!(login(&mut st2, input, Some(u), 1).is_ok());
}

#[test]
fn a_duplicate_key_means_the_name_is_taken() {
    assert_eq!(user_store_failure("E11000 duplicate key error collection: users"), PosError::UsernameTaken);
    assert_eq!(user_store_failure("connection reset"), PosError::Store);
    assert_eq!(PosError::UsernameTaken.message(), "Username ya existe en esta sucursal");
}

#[test]
fn users_are_shown_without_the_hash() {
    let v: UserView = stored_user().into();
    assert_eq!(v.id, ID);
    assert_eq!(v.username, "luis");
    assert_eq!(v.created_at, 1);
    assert_eq!(v.updated_at, 1);
    let page = users_page(vec![stored_user(), user_from(new_user("x"), "h".into(), "b".into(), 9_000)], 2, PageWindow { page: 1, size: 20, skip: 0 });
    assert_eq!(page.data.len(), 2);
    assert_eq!(page.data[0].id, ID);
    assert_eq!(page.data[1].id, "b");
    assert_eq!(page.data[1].created_at, 9);
    assert_eq!((page.total, page.page, page.page_size), (2, 1, 20));
}

#[test]
fn listing_users_builds_the_query() {
    let st = state();
    let q = list_users(&st, "adm", 1, "T1".into(), "B1".into(), Some("".into()), None, None, None).unwrap();
    assert!(q.search.is_none());
    assert!(!q.only_active);
    assert_eq!(q.window, PageWindow { page: 1, size: 20, skip: 0 });
    let q = list_users(&st, "adm", 1, "T1".into(), "B1".into(), Some("lu".into()), Some(3), Some(5), Some(true)).unwrap();
    assert_eq!(q.search.as_deref(), Some("lu"));
    assert!(q.only_active);
    assert_eq!(q.window, PageWindow { page: 3, size: 5, skip: 10 });
    let q = list_users(&st, "adm", 1, "T1".into(), "B1".into(), None, None, None, Some(false)).unwrap();
    assert!(!q.only_active);
    assert_eq!(list_users(&st, "tok", 1, "T1".into(), "B1".into(), None, None, None, None).unwrap_err(), PosError::NotAuthorized);
    assert_eq!(search_text(Some(" ".into())), Some(" ".to_string()));
}

#[test]
fn changes_set_only_what_they_name() {
    let changes = UpdateUser { name: Some("Luisa".into()), username: None, role: Some(Role::ADMIN), active: None, new_password: None };
    let u = apply_user_changes(stored_user(), changes, None, 9_000);
    assert_eq!(u.name, "Luisa");
    assert_eq!(u.username, "luis");
    assert_eq!(u.role, Role::ADMIN);
    assert!(u.active);
    assert_eq!(u.password_hash, "hash");
    assert_eq!(u.created_at, 1_500);
    assert_eq!(u.updated_at, 9_000);
    assert_eq!(u.id, ID);
    let u = apply_user_changes(stored_user(), UpdateUser::default(), Some("nuevo".into()), 1);
    assert_eq!(u.password_hash, "nuevo");
    assert_eq!(u.name, "Luis");
}

#[test]
fn updating_a_user_checks_in_order() {
    let st = state();
    assert_eq!(update_user(&st, "tok", 1, ID, UpdateUser::default(), None).unwrap_err(), PosError::NotAuthorized);
    assert_eq!(update_user(&st, "adm", 1, "bad", UpdateUser::default(), None).unwrap_err(), PosError::InvalidId);
    assert_eq!(update_user(&st, "adm", 1, ID, UpdateUser::default(), None).unwrap_err(), PosError::NoSuchUser);
    let changes = UpdateUser { new_password: Some("otra".into()), ..UpdateUser::default() };
    let u = update_user(&st, "adm", 8_000, ID, changes, Some(stored_user())).unwrap();
    assert_ne!(u.password_hash, "hash");
    assert_ne!(u.password_hash, "otra");
    assert_eq!(u.updated_at, 8_000);
    let mut st2 = state();
    let input = LoginInput { username: "luis".into(), password: "otra".into(), tenant_id: "T1".into(), branch_id: "B1".into() };
    assert!(login(&mut st2, input, Some(u), 1).is_ok());
    let off = toggle_user_active(&st, "adm", 500, ID, false, Some(stored_user())).unwrap();
    assert!(!off.active);
    assert_eq!(off.updated_at, 500);
    assert_eq!(off.name, "Luis");
    assert_eq!(toggle_user_active(&st, "adm", 500, ID, false, None).unwrap_err(), PosError::NoSuchUser);
    assert_eq!(get_user_by_id(&st, "adm", 1, ID, Some(stored_user())).unwrap().username, "luis");
    assert_eq!(get_user_by_id(&st, "adm", 1, ID, None).unwrap_err(), PosError::NoSuchUser);
    assert_eq!(get_user_by_id(&st, "tok", 1, ID, None).unwrap_err(), PosError::NotAuthorized);
    assert_eq!(get_user_by_id(&st, "adm", 1, "bad", None).unwrap_err(), PosError::InvalidId);
}

#[test]
fn an_empty_store_gets_its_administrator() {
    assert!(bootstrap_default_admin(1, 5).unwrap().is_none());
    assert!(bootstrap_default_admin(u64::MAX, 5).unwrap().is_none());
    let admin = bootstrap_default_admin(0, 5).unwrap().unwrap();
    assert_eq!(admin.username, "admin");
    assert_eq!(admin.name, "Administrador");
    assert_eq!(admin.tenant_id, "ELTITI1");
    assert_eq!(admin.branch_id, "SUCURSAL1");
    assert_eq!(admin.role, Role::ADMIN);
    assert!(admin.active);
    assert_eq!(admin.id.len(), 24);
    assert_eq!((admin.created_at, admin.updated_at), (5, 5));
    let mut st = state();
    let input = LoginInput { username: "admin".into(), password: "admin123".into(), tenant_id: "ELTITI1".into(), branch_id: "SUCURSAL1".into() };
    let view = login(&mut st, input, Some(admin), 10).unwrap();
    assert_eq!(view.role, Role::ADMIN);
}

#[test]
fn products_are_created_changed_and_shown() {
    let st = state();
    let payload = NewProduct { tenant_id: "T1".into(), branch_id: "B1".into(), name: "Soda".into(), photo_base64: "".into(), cost: 3, price: 8, description: "fria".into(), category: "BEBIDA".into() };
    assert_eq!(create_product(&st, "tok", 1, NewProduct { name: "x".into(), ..new_product() }).unwrap_err(), PosError::NotAuthorized);
    let p = create_product(&st, "adm", 4_000, payload).unwrap();
    assert_eq!(p.id.len(), 24);
    assert_eq!((p.name.as_str(), p.cost, p.price, p.category.as_str()), ("Soda", 3, 8, "BEBIDA"));
    assert_eq!((p.created_at, p.updated_at), (4_000, 4_000));
    let changes = UpdateProduct { price: Some(30), description: Some("nueva".into()), ..UpdateProduct::default() };
    let c = apply_product_changes(product(), changes, 9_000);
    assert_eq!((c.price, c.cost, c.name.as_str(), c.description.as_str()), (30, 10, "Alitas", "nueva"));
    assert_eq!((c.created_at, c.updated_at), (2_000, 9_000));
    assert_eq!(update_product(&st, "adm", 1, ID, UpdateProduct::default(), None).unwrap_err(), PosError::ProductNotFound);
    assert_eq!(update_product(&st, "adm", 1, "bad", UpdateProduct::default(), None).unwrap_err(), PosError::InvalidId);
    assert_eq!(update_product(&st, "tok", 1, ID, UpdateProduct::default(), None).unwrap_err(), PosError::NotAuthorized);
    assert_eq!(update_product(&st, "adm", 6, ID, UpdateProduct::default(), Some(product())).unwrap().updated_at, 6);
    let v: ProductView = product().into();
    assert_eq!((v.created_at, v.updated_at, v.price), (2, 3, 25));
    assert_eq!(get_product_by_id(&st, "tok", 1, ID, Some(product())).unwrap().name, "Alitas");
    assert_eq!(get_product_by_id(&st, "tok", 1, ID, None).unwrap_err(), PosError::ProductNotFound);
    assert_eq!(get_product_by_id(&st, "x", 1, ID, None).unwrap_err(), PosError::SessionInvalid);
    let q = list_products(&st, "tok", 1, "T1".into(), "B1".into(), Some("al".into()), Some(2), None).unwrap();
    assert_eq!(q.search.as_deref(), Some("al"));
    assert_eq!(q.window, PageWindow { page: 2, size: 20, skip: 20 });
    let page = products_page(vec![product()], 1, q.window);
    assert_eq!(page.data[0].name, "Alitas");
    assert_eq!(page.page, 2);
}

fn new_product() -> NewProduct {
    NewProduct { tenant_id: "T1".into(), branch_id: "B1".into(), name: "n".into(), photo_base64: "".into(), cost: 0, price: 0, description: "".into(), category: "".into() }
}

#[test]
fn months_are_filled_from_the_rows() {
    let income = vec![MonthRow { month: 1, amount: 100 }, MonthRow { month: 12, amount: 7 }, MonthRow { month: 0, amount: 5 }, MonthRow { month: 13, amount: 5 }, MonthRow { month: 1, amount: 150 }];
    let expenses = vec![MonthRow { month: 1, amount: 40 }, MonthRow { month: 3, amount: 9 }];
    let months = report_monthly_pnl(2025, &income, &expenses);
    assert_eq!(months.len(), 12);
    assert_eq!(months[0].month, "2025-01");
    assert_eq!((months[0].ingresos, months[0].egresos, months[0].neto), (150, 40, 110));
    assert_eq!(months[2].month, "2025-03");
    assert_eq!((months[2].ingresos, months[2].egresos, months[2].neto), (0, 9, -9));
    assert_eq!(months[11].month, "2025-12");
    assert_eq!(months[11].ingresos, 7);
    assert_eq!(months[5].neto, 0);
    assert_eq!(report_monthly_pnl(987, &vec![], &vec![])[8].month, "0987-09");
    let wide = report_monthly_pnl(1, &vec![MonthRow { month: 2, amount: i64::MAX }], &vec![MonthRow { month: 2, amount: i64::MIN }]);
    assert_eq!(wide[1].neto, i64::MAX as i128 - i64::MIN as i128);
}

#[test]
fn net_is_income_less_expenses() {
    let r = report_profit_and_loss(500, 120, vec![Point { date: "2025-01-01".into(), amount: 500 }], vec![]);
    assert_eq!((r.ingresos, r.egresos, r.neto), (500, 120, 380));
    assert_eq!(r.ingresos_series.len(), 1);
    assert_eq!(report_profit_and_loss(i64::MIN, i64::MAX, vec![], vec![]).neto, i64::MIN as i128 - i64::MAX as i128);
}

#[test]
fn range_listings_build_their_query() {
    let st = state();
    let a = CalendarDay { year: 2025, month: 1, day: 1 };
    let b = CalendarDay { year: 2025, month: 1, day: 31 };
    assert_eq!(report_range(&st, "tok", 1, "2025-01-01", "2025-01-31"), Ok((a, b)));
    assert_eq!(report_range(&st, "x", 1, "bad", "bad"), Err(PosError::SessionInvalid));
    assert_eq!(report_range(&st, "tok", 1, "bad", "bad"), Err(PosError::InvalidFromDate));
    let q = expenses_list(&st, "tok", 1, "T1".into(), "B1".into(), "2025-01-01", "2025-01-31", Some(2), Some(10)).unwrap();
    assert_eq!((q.from, q.to), (a, b));
    assert_eq!(q.window, PageWindow { page: 2, size: 10, skip: 10 });
    assert_eq!(q.tenant_id, "T1");
    let q = shifts_query(&st, "tok", 1, "T1".into(), "B1".into(), "2025-01-01", "2025-01-31", None, None).unwrap();
    assert_eq!(q.window, PageWindow { page: 1, size: 20, skip: 0 });
    assert_eq!(shifts_query(&st, "tok", 1, "T1".into(), "B1".into(), "2025-01-01", "x", None, None).unwrap_err(), PosError::InvalidToDate);
    let e = expense_create(&st, "tok", 77, NewExpense { tenant_id: "T1".into(), branch_id: "B1".into(), description: "gas".into(), amount: 350 }).unwrap();
    assert_eq!((e.amount, e.created_at, e.updated_at), (350, 77, 77));
    assert_eq!(e.id.len(), 24);
    assert_eq!(e.description, "gas");
    assert_eq!(expense_delete(&st, "tok", 1, ID), Err(PosError::NotAuthorized));
    assert_eq!(expense_delete(&st, "adm", 1, "bad"), Err(PosError::InvalidId));
    assert_eq!(expense_delete(&st, "adm", 1, ID), Ok(()));
}

fn plain_user() -> PlainUser {
    PlainUser {
        id: Some(ID.into()),
        name: "Ana".into(),
        lastname: "Perez".into(),
        ci: "123".into(),
        email: "a@b.c".into(),
        celular: 777,
        username: "ana".into(),
        password: "clave".into(),
        rol: 1,
        photo: None,
        active: true,
    }
}

#[test]
fn the_process_session_holds_one_user() {
    let mut session = ProcessSession::default();
    assert_eq!(get_current_user(&session).unwrap_err(), PosError::SessionInvalid);
    let bad = login_user(LoginData { username: "ana".into(), password: "x".into() }, Some(plain_user()), &mut session);
    assert_eq!(bad.unwrap_err(), PosError::BadCredentials);
    assert!(session.user.is_none());
    let none = login_user(LoginData { username: "ana".into(), password: "clave".into() }, None, &mut session);
    assert_eq!(none.unwrap_err(), PosError::BadCredentials);
    let ok = login_user(LoginData { username: "ana".into(), password: "clave".into() }, Some(plain_user()), &mut session);
    assert_eq!(ok.unwrap(), "Bienvenido, ana");
    let shown: PublicUserSession = get_current_user(&session).unwrap();
    assert_eq!((shown.name.as_str(), shown.lastname.as_str(), shown.celular, shown.rol), ("Ana", "Perez", 777, 1));
    assert_eq!(shown.id.as_deref(), Some(ID));
    assert!(logout_user(&mut session).is_ok());
    assert!(session.user.is_none());
    assert!(logout_user(&mut session).is_ok());
    let copy = plain_user().duplicate();
    assert_eq!(copy.password, "clave");
    assert_eq!(PublicUserSession::from(&copy).email, "a@b.c");
}

#[test]
fn rows_are_listed_as_they_come() {
    let q = list_rows(None, None, None);
    assert_eq!((q.skip, q.limit), (0, 10));
    assert!(q.search.is_none());
    let q = list_rows(Some(0), Some(0), Some("  ".into()));
    assert_eq!((q.skip, q.limit), (0, 1));
    assert!(q.search.is_none());
    let q = list_rows(Some(4), Some(500), Some(" an ".into()));
    assert_eq!((q.skip, q.limit), (300, 100));
    assert_eq!(q.search.as_deref(), Some(" an "));
    assert_eq!(list_rows(Some(u64::MAX), Some(100), None).skip, u64::MAX);
    let row = |name: &str| UserRow { id: None, name: name.into(), lastname: "L".into(), ci: "1".into(), email: "e".into(), celular: 1, username: name.to_lowercase(), rol: 2, photo: Some("f".into()), active: false };
    let shown: Vec<PublicUser> = public_users(&vec![row("B"), row("A")]);
    assert_eq!(shown.len(), 2);
    assert_eq!(shown[0].name, "B");
    assert_eq!(shown[1].username, "a");
    assert_eq!(shown[1].photo.as_deref(), Some("f"));
    assert_eq!(PublicUser::from(&row("C")).rol, 2);
}

fn counts_as_white_space(c: char) -> bool {
    matches!(
        c,
        '\u{9}'..='\u{d}'
            | ' '
            | '\u{85}'
            | '\u{a0}'
            | '\u{1680}'
            | '\u{2000}'..='\u{200a}'
            | '\u{2028}'
            | '\u{2029}'
            | '\u{202f}'
            | '\u{205f}'
            | '\u{3000}'
    )
}

#[test]
fn a_search_is_dropped_exactly_for_white_space() {
    let mut white = 0;
    for n in 0..=0x10ffffu32 {
        if let Some(c) = char::from_u32(n) {
            let q = list_rows(None, None, Some(c.to_string()));
            assert_eq!(q.search.is_none(), counts_as_white_space(c), "{n:#x}");
            if q.search.is_none() {
                white += 1;
            }
        }
    }
    assert_eq!(white, 25);
    assert!(list_rows(None, None, Some(String::new())).search.is_none());
    assert!(list_rows(None, None, Some("\u{2003}\u{85}\t".into())).search.is_none());
    assert_eq!(list_rows(None, None, Some("\u{200b}".into())).search.as_deref(), Some("\u{200b}"));
    assert_eq!(list_rows(None, None, Some("\u{1f}".into())).search.as_deref(), Some("\u{1f}"));
}
