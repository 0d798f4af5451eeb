use restaurant_pos::db::{Order, OrderStatus, PaymentMethod};
use restaurant_pos::error::{ErrorKind, PosError};
use restaurant_pos::reports_cash::{
    after_close_stored, after_movement_stored, after_shift_stored, cash_close_shift, cash_get_active_shift,
    cash_list_shifts, cash_open_shift, cash_register_movement, cash_sales, count_denominations,
    parse_kind, sum_movements, with_movement_totals, CashShift, Denomination, MovementKind,
    MovementSource, ShiftStatus, Stored,
};
use restaurant_pos::state::{AppState, Role, Session};

fn open(float: i64) -> CashShift {
    CashShift::open(
        "65a0000000000000000000aa".to_string(),
        "T1".to_string(),
        "B1".to_string(),
        "u1".to_string(),
        "ana".to_string(),
        float,
        1_000,
    )
    .unwrap()
}

fn notes(v: &[(i32, i32)]) -> Vec<Denomination> {
    v.iter().map(|(value, qty)| Denomination { value: *value, qty: *qty }).collect()
}

fn state_with(token: &str, role: Role) -> AppState {
    let mut st = AppState::new("uri".to_string(), "db".to_string());
    let identity = Session {
        session_id: String::new(),
        user_id: "u1".to_string(),
        username: "ana".to_string(),
        role,
        tenant_id: "T1".to_string(),
        branch_id: "B1".to_string(),
        expires_at: 0,
    };
    st.sessions.create_with_token(identity, token.to_string(), 0).unwrap();
    st
}

fn order(id: &str, total: i64, method: PaymentMethod, status: OrderStatus, created_at: i64) -> Order {
    Order {
        id: id.to_string(),
        tenant_id: "T1".to_string(),
        branch_id: "B1".to_string(),
        order_number: 1,
        items: vec![],
        total,
        payment_method: method,
        cash_amount: None,
        cash_change: None,
        delivery: None,
        comments: None,
        status,
        created_at,
        updated_at: created_at,
    }
}

#[test]
fn opening_makes_an_open_shift_without_movements() {
    let s = open(100);
    assert_eq!(s.status, ShiftStatus::OPEN);
    assert_eq!(s.opening_float, 100);
    assert_eq!(s.opened_at, 1_000);
    assert!(s.movements.is_empty());
    assert!(s.closed_at.is_none() && s.counted.is_none() && s.expected.is_none());
    assert!(s.difference.is_none() && s.manual_ins.is_none() && s.cash_sales.is_none());
    assert_eq!(s.username, "ana");
}

#[test]
fn opening_with_a_negative_float_is_refused() {
    let r = CashShift::open("i".into(), "T".into(), "B".into(), "u".into(), "n".into(), -1, 0);
    assert_eq!(r.unwrap_err(), PosError::InvalidOpeningFloat);
    assert_eq!(PosError::InvalidOpeningFloat.kind(), ErrorKind::Validation);
    assert!(CashShift::open("i".into(), "T".into(), "B".into(), "u".into(), "n".into(), 0, 0).is_ok());
}

#[test]
fn float_in_out_and_sales_reconcile() {
    let mut s = open(100);
    s.register(MovementKind::IN, 20, Some("cambio".to_string()), 1_100).unwrap();
    s.register(MovementKind::OUT, 30, None, 1_200).unwrap();
    s.close(250, notes(&[(100, 3), (20, 1), (10, 1), (5, 1)]), Some("ok".to_string()), 2_000).unwrap();
    assert_eq!(s.status, ShiftStatus::CLOSED);
    assert_eq!(s.cash_sales, Some(250));
    assert_eq!(s.manual_ins, Some(20));
    assert_eq!(s.manual_outs, Some(30));
    assert_eq!(s.expected, Some(340));
    assert_eq!(s.counted, Some(335));
    assert_eq!(s.difference, Some(-5));
    assert_eq!(s.closed_at, Some(2_000));
    assert_eq!(s.notes.as_deref(), Some("ok"));
    assert_eq!(s.denominations.as_ref().unwrap().len(), 4);
    assert_eq!(s.movements.len(), 2);
}

#[test]
fn closing_twice_is_a_conflict_and_keeps_the_first_figures() {
    let mut s = open(0);
    s.close(50, notes(&[(50, 1)]), None, 2_000).unwrap();
    assert_eq!((s.expected, s.counted, s.difference), (Some(50), Some(50), Some(0)));
    let again = s.close(999, notes(&[(1, 1)]), Some("otra".to_string()), 3_000);
    assert_eq!(again.unwrap_err(), PosError::ShiftClosed);
    assert_eq!(PosError::ShiftClosed.kind(), ErrorKind::Conflict);
    assert_eq!((s.expected, s.counted, s.difference), (Some(50), Some(50), Some(0)));
    assert_eq!(s.cash_sales, Some(50));
    assert_eq!(s.closed_at, Some(2_000));
    assert!(s.notes.is_none());
}

#[test]
fn movements_are_validated_and_appended_in_order() {
    let mut s = open(10);
    assert_eq!(s.register(MovementKind::IN, 0, None, 1).unwrap_err(), PosError::InvalidAmount);
    assert_eq!(s.register(MovementKind::OUT, -5, None, 1).unwrap_err(), PosError::InvalidAmount);
    assert!(s.movements.is_empty());
    s.register(MovementKind::IN, 7, Some("a".into()), 5).unwrap();
    s.register(MovementKind::OUT, 3, None, 6).unwrap();
    assert_eq!(s.movements.len(), 2);
    assert_eq!(s.movements[0].amount, 7);
    assert_eq!(s.movements[0].kind, MovementKind::IN);
    assert_eq!(s.movements[0].source, MovementSource::MANUAL);
    assert_eq!(s.movements[0].note.as_deref(), Some("a"));
    assert!(s.movements[0].ref_order_id.is_none());
    assert_eq!(s.movements[0].at, 5);
    assert_eq!(s.movements[1].kind, MovementKind::OUT);
    s.close(0, vec![], None, 9).unwrap();
    assert_eq!(s.register(MovementKind::IN, 1, None, 10).unwrap_err(), PosError::ShiftClosed);
    assert_eq!(s.movements.len(), 2);
}

#[test]
fn an_order_is_posted_once_to_a_shift() {
    let mut s = open(0);
    s.post_order("65a0000000000000000000b1", 7, 50, 1_500).unwrap();
    assert_eq!(s.movements.len(), 1);
    let m = &s.movements[0];
    assert_eq!(m.kind, MovementKind::IN);
    assert_eq!(m.amount, 50);
    assert_eq!(m.source, MovementSource::ORDER);
    assert_eq!(m.ref_order_id.as_deref(), Some("65a0000000000000000000b1"));
    assert_eq!(m.note.as_deref(), Some("Ingreso por pedido #7"));
    assert_eq!(m.at, 1_500);
    s.post_order("65a0000000000000000000b1", 7, 50, 1_600).unwrap();
    assert_eq!(s.movements.len(), 1);
    s.post_order("65a0000000000000000000b2", 8, 20, 1_700).unwrap();
    assert_eq!(s.movements.len(), 2);
    s.post_order("65a0000000000000000000b3", 9, 0, 1_800).unwrap();
    assert_eq!(s.movements.len(), 2);
}

#[test]
fn order_movements_do_not_count_as_keyed_in() {
    let mut s = open(10);
    s.post_order("o1", 1, 40, 2).unwrap();
    s.register(MovementKind::IN, 5, None, 3).unwrap();
    assert_eq!(sum_movements(&s.movements, MovementKind::IN, true), 5);
    assert_eq!(sum_movements(&s.movements, MovementKind::IN, false), 45);
    assert_eq!(sum_movements(&s.movements, MovementKind::OUT, false), 0);
    s.close(40, notes(&[(55, 1)]), None, 4).unwrap();
    assert_eq!(s.manual_ins, Some(5));
    assert_eq!(s.expected, Some(55));
    assert_eq!(s.difference, Some(0));
}

#[test]
fn counting_multiplies_value_by_quantity() {
    assert_eq!(count_denominations(&notes(&[(20000, 3), (50, 7), (10, 0)])), 60_350);
    assert_eq!(count_denominations(&vec![]), 0);
    assert_eq!(count_denominations(&notes(&[(i32::MAX, i32::MAX)])), (i32::MAX as i128) * (i32::MAX as i128));
    assert_eq!(count_denominations(&notes(&[(100, -1), (300, 1)])), 200);
}

#[test]
fn figures_out_of_range_refuse_the_close() {
    let mut s = open(i64::MAX);
    s.register(MovementKind::IN, 1, None, 1).unwrap();
    let r = s.close(0, vec![], None, 2);
    assert_eq!(r.unwrap_err(), PosError::AmountOutOfRange);
    assert_eq!(s.status, ShiftStatus::OPEN);
    assert!(s.expected.is_none());
    let mut t = open(0);
    t.register(MovementKind::IN, i64::MAX, None, 1).unwrap();
    t.register(MovementKind::IN, 1, None, 1).unwrap();
    assert_eq!(t.close(0, vec![], None, 2).unwrap_err(), PosError::AmountOutOfRange);
    let mut u = open(0);
    u.register(MovementKind::OUT, i64::MAX, None, 1).unwrap();
    u.close(0, notes(&[(2, 1)]), None, 2).unwrap_err();
    let mut v = open(0);
    v.register(MovementKind::OUT, i64::MAX, None, 1).unwrap();
    v.close(0, notes(&[(0, 0)]), None, 2).unwrap();
    assert_eq!(v.expected, Some(-i64::MAX));
    assert_eq!(v.difference, Some(i64::MAX));
}

#[test]
fn kinds_are_read_by_name() {
    assert_eq!(parse_kind("IN"), Some(MovementKind::IN));
    assert_eq!(parse_kind("OUT"), Some(MovementKind::OUT));
    assert_eq!(parse_kind("in"), None);
    assert_eq!(parse_kind(""), None);
    assert_eq!(parse_kind("IN "), None);
}

#[test]
fn open_command_checks_session_float_and_conflict_in_order() {
    let st = state_with("tok", Role::STAFF);
    let r = cash_open_shift(&st, "nope", 5_000, "T1".into(), "B1".into(), -1, true);
    assert_eq!(r.unwrap_err(), PosError::SessionInvalid);
    let r = cash_open_shift(&st, "tok", 5_000, "T1".into(), "B1".into(), -1, true);
    assert_eq!(r.unwrap_err(), PosError::InvalidOpeningFloat);
    let r = cash_open_shift(&st, "tok", 5_000, "T1".into(), "B1".into(), 10, true);
    assert_eq!(r.unwrap_err(), PosError::ShiftAlreadyOpen);
    let s = cash_open_shift(&st, "tok", 5_000, "T1".into(), "B1".into(), 10, false).unwrap();
    assert_eq!(s.id.len(), 24);
    assert!(s.id.chars().all(|c| c.is_ascii_hexdigit()));
    assert_eq!(s.user_id, "u1");
    assert_eq!(s.username, "ana");
    assert_eq!(s.opened_at, 5_000);
    assert_eq!(s.opening_float, 10);
    assert_eq!(s.tenant_id, "T1");
    let expired = cash_open_shift(&st, "tok", 43_200_000, "T1".into(), "B1".into(), 10, false);
    assert_eq!(expired.unwrap_err(), PosError::SessionInvalid);
}

#[test]
fn store_answers_turn_races_into_conflicts() {
    assert_eq!(after_shift_stored(Stored::Done), Ok(()));
    assert_eq!(after_shift_stored(Stored::Duplicate), Err(PosError::ShiftAlreadyOpen));
    assert_eq!(after_shift_stored(Stored::Failed), Err(PosError::Store));
    assert_eq!(after_close_stored(true, false, false), Ok(()));
    assert_eq!(after_close_stored(true, false, true), Ok(()));
    assert_eq!(after_close_stored(false, false, false), Err(PosError::ShiftClosed));
    assert_eq!(after_close_stored(false, false, true), Err(PosError::ShiftChanged));
    assert_eq!(after_close_stored(true, true, false), Err(PosError::Store));
    assert_eq!(after_close_stored(false, true, true), Err(PosError::Store));
    assert_eq!(PosError::ShiftChanged.kind(), ErrorKind::Conflict);
    assert_eq!(PosError::ShiftChanged.message(), "La caja cambió durante el cierre; vuelva a intentarlo");
}

#[test]
fn a_movement_written_to_a_closed_shift_is_a_conflict() {
    assert_eq!(after_movement_stored(true, false), Ok(()));
    assert_eq!(after_movement_stored(false, false), Err(PosError::ShiftClosed));
    assert_eq!(after_movement_stored(true, true), Err(PosError::Store));
    assert_eq!(after_movement_stored(false, true), Err(PosError::Store));
}

#[test]
fn register_command_checks_in_order() {
    let st = state_with("tok", Role::STAFF);
    let id = "65a0000000000000000000aa";
    let r = cash_register_movement(&st, "x", 1, "bad", "??", 0, None, None);
    assert_eq!(r.unwrap_err(), PosError::SessionInvalid);
    let r = cash_register_movement(&st, "tok", 1, "bad", "??", 0, None, None);
    assert_eq!(r.unwrap_err(), PosError::InvalidKind);
    let r = cash_register_movement(&st, "tok", 1, "bad", "IN", 0, None, None);
    assert_eq!(r.unwrap_err(), PosError::InvalidAmount);
    let r = cash_register_movement(&st, "tok", 1, "bad", "IN", 5, None, None);
    assert_eq!(r.unwrap_err(), PosError::InvalidId);
    let r = cash_register_movement(&st, "tok", 1, id, "IN", 5, None, None);
    assert_eq!(r.unwrap_err(), PosError::ShiftNotFound);
    let after = cash_register_movement(&st, "tok", 1, id, "OUT", 5, Some("caja".into()), Some(open(1))).unwrap();
    assert_eq!(after.movements.len(), 1);
    assert_eq!(after.movements[0].kind, MovementKind::OUT);
    assert_eq!(after.movements[0].at, 1);
    let mut closed = open(1);
    closed.close(0, vec![], None, 2).unwrap();
    let r = cash_register_movement(&st, "tok", 3, id, "IN", 5, None, Some(closed));
    assert_eq!(r.unwrap_err(), PosError::ShiftClosed);
}

#[test]
fn close_command_checks_in_order_and_closes() {
    let st = state_with("tok", Role::STAFF);
    let id = "65a0000000000000000000aa";
    assert_eq!(cash_close_shift(&st, "x", 1, "bad", None, 0, vec![], None).unwrap_err(), PosError::SessionInvalid);
    assert_eq!(cash_close_shift(&st, "tok", 1, "bad", None, 0, vec![], None).unwrap_err(), PosError::InvalidId);
    assert_eq!(cash_close_shift(&st, "tok", 1, id, None, 0, vec![], None).unwrap_err(), PosError::ShiftNotFound);
    let closed = cash_close_shift(&st, "tok", 9, id, Some(open(100)), 250, notes(&[(335, 1)]), None).unwrap();
    assert_eq!(closed.expected, Some(350));
    assert_eq!(closed.difference, Some(-15));
    assert_eq!(closed.closed_at, Some(9));
    let r = cash_close_shift(&st, "tok", 10, id, Some(closed), 1, vec![], None);
    assert_eq!(r.unwrap_err(), PosError::ShiftClosed);
}

#[test]
fn active_shift_is_only_the_open_one_of_the_branch() {
    let st = state_with("tok", Role::STAFF);
    assert_eq!(cash_get_active_shift(&st, "x", 1, "T1", "B1", None).unwrap_err(), PosError::SessionInvalid);
    assert!(cash_get_active_shift(&st, "tok", 1, "T1", "B1", None).unwrap().is_none());
    assert!(cash_get_active_shift(&st, "tok", 1, "T1", "B1", Some(open(1))).unwrap().is_some());
    assert!(cash_get_active_shift(&st, "tok", 1, "T1", "B2", Some(open(1))).unwrap().is_none());
    let mut closed = open(1);
    closed.close(0, vec![], None, 2).unwrap();
    assert!(cash_get_active_shift(&st, "tok", 1, "T1", "B1", Some(closed)).unwrap().is_none());
}

#[test]
fn cash_sales_take_delivered_cash_orders_of_the_shift() {
    let s = open(0);
    let orders = vec![
        order("a", 50, PaymentMethod::CASH, OrderStatus::DELIVERED, 1_500),
        order("b", 70, PaymentMethod::CARD, OrderStatus::DELIVERED, 1_500),
        order("c", 11, PaymentMethod::CASH, OrderStatus::PENDING, 1_500),
        order("d", 13, PaymentMethod::CASH, OrderStatus::DELIVERED, 999),
        order("e", 17, PaymentMethod::CASH, OrderStatus::DELIVERED, 1_000),
        order("f", 19, PaymentMethod::CASH, OrderStatus::DELIVERED, 2_000),
        order("g", 23, PaymentMethod::CASH, OrderStatus::DELIVERED, 2_001),
        order("h", 29, PaymentMethod::QR, OrderStatus::DELIVERED, 1_500),
    ];
    assert_eq!(cash_sales(&orders, &s, 2_000), Ok(50 + 17 + 19));
    let mut other = order("z", 5, PaymentMethod::CASH, OrderStatus::DELIVERED, 1_500);
    other.branch_id = "B2".to_string();
    assert_eq!(cash_sales(&vec![other], &s, 2_000), Ok(0));
    let big = vec![
        order("a", i64::MAX, PaymentMethod::CASH, OrderStatus::DELIVERED, 1_500),
        order("b", 1, PaymentMethod::CASH, OrderStatus::DELIVERED, 1_500),
    ];
    assert_eq!(cash_sales(&big, &s, 2_000), Err(PosError::AmountOutOfRange));
}

#[test]
fn listed_shifts_get_the_totals_of_what_was_keyed_in() {
    let mut s = open(0);
    s.register(MovementKind::IN, 5, None, 1).unwrap();
    s.post_order("o1", 1, 40, 2).unwrap();
    s.register(MovementKind::OUT, 3, None, 3).unwrap();
    let mut t = s.duplicate();
    with_movement_totals(&mut t);
    assert_eq!(t.manual_ins, Some(5));
    assert_eq!(t.manual_outs, Some(3));
    assert_eq!(t.movements.len(), 3);
    let mut list = vec![s, open(9)];
    cash_list_shifts(&mut list);
    assert_eq!(list.len(), 2);
    assert_eq!(list[0].manual_ins, Some(5));
    assert_eq!(list[0].manual_outs, Some(3));
    assert_eq!(list[1].manual_ins, Some(0));
    assert_eq!(list[1].manual_outs, Some(0));
    assert_eq!(list[1].opening_float, 9);
}

#[test]
fn a_closed_shift_is_listed_with_the_sums_of_its_close() {
    let mut s = open(10_000);
    s.register(MovementKind::IN, 2_000, None, 1).unwrap();
    s.post_order("o1", 1, 5_000, 2).unwrap();
    s.register(MovementKind::OUT, 3_000, None, 3).unwrap();
    s.close(5_000, notes(&[(1_000, 14)]), None, 9).unwrap();
    assert_eq!(s.manual_ins, Some(2_000));
    assert_eq!(s.manual_outs, Some(3_000));
    let stored = s.duplicate();
    let mut list = vec![s];
    cash_list_shifts(&mut list);
    assert_eq!(list[0].manual_ins, Some(2_000));
    assert_eq!(list[0].manual_outs, Some(3_000));
    assert_eq!(list[0].expected, stored.expected);
    assert_eq!(list[0].expected, Some(10_000 + 5_000 + 2_000 - 3_000));
    assert_eq!(list[0].counted, Some(14_000));
    assert_eq!(list[0].difference, Some(0));
    assert_eq!(list[0].cash_sales, Some(5_000));
    assert_eq!(list[0].status, stored.status);
    assert_eq!(list[0].closed_at, Some(9));
    assert_eq!(list[0].movements.len(), 3);
}

#[test]
fn a_copy_of_a_shift_holds_the_same() {
    let mut s = open(12);
    s.register(MovementKind::IN, 5, Some("n".into()), 1).unwrap();
    s.close(3, notes(&[(1, 2)]), Some("r".into()), 8).unwrap();
    let c = s.duplicate();
    assert_eq!(c.id, s.id);
    assert_eq!(c.movements.len(), 1);
    assert_eq!(c.movements[0].note.as_deref(), Some("n"));
    assert_eq!(c.expected, s.expected);
    assert_eq!(c.denominations.as_ref().unwrap()[0], Denomination { value: 1, qty: 2 });
    assert_eq!(c.notes.as_deref(), Some("r"));
    assert_eq!(c.status, ShiftStatus::CLOSED);
}
