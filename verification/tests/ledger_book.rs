use restaurant_pos::error::{ErrorKind, PosError};
use restaurant_pos::ledger::CashBook;
use restaurant_pos::reports_cash::{Denomination, MovementKind, MovementSource, ShiftStatus};
use restaurant_pos::state::{Role, Session};

fn opener() -> Session {
    Session {
        session_id: "tok".to_string(),
        user_id: "u1".to_string(),
        username: "ana".to_string(),
        role: Role::STAFF,
        tenant_id: "T1".to_string(),
        branch_id: "B1".to_string(),
        expires_at: 0,
    }
}

fn count_order_movements(book: &CashBook, ids: &[String], order: &str) -> usize {
    ids.iter()
        .map(|id| {
            book.shift(id)
                .unwrap()
                .movements
                .iter()
                .filter(|m| m.source == MovementSource::ORDER && m.ref_order_id.as_deref() == Some(order))
                .count()
        })
        .sum()
}

#[test]
fn of_many_openings_for_one_branch_exactly_one_succeeds() {
    let mut book = CashBook::new();
    let mut ok = 0;
    let mut conflicts = 0;
    for i in 0..8 {
        match book.open_shift("T1".to_string(), "B1".to_string(), &opener(), i, 100 + i) {
            Ok(_) => ok += 1,
            Err(e) => {
                assert_eq!(e, PosError::ShiftAlreadyOpen);
                assert_eq!(e.kind(), ErrorKind::Conflict);
                conflicts += 1;
            }
        }
    }
    assert_eq!((ok, conflicts), (1, 7));
    assert_eq!(book.len(), 1);
    assert_eq!(book.active_shift("T1", "B1").unwrap().opening_float, 0);
}

#[test]
fn branches_do_not_block_each_other() {
    let mut book = CashBook::new();
    let a = book.open_shift("T1".to_string(), "B1".to_string(), &opener(), 1, 1).unwrap();
    let b = book.open_shift("T1".to_string(), "B2".to_string(), &opener(), 2, 1).unwrap();
    let c = book.open_shift("T2".to_string(), "B1".to_string(), &opener(), 3, 1).unwrap();
    assert_ne!(a, b);
    assert_ne!(b, c);
    assert_eq!(book.len(), 3);
    assert_eq!(book.active_shift("T1", "B2").unwrap().id, b);
    assert!(book.active_shift("T2", "B2").is_none());
}

#[test]
fn a_branch_can_open_again_after_its_close() {
    let mut book = CashBook::new();
    let first = book.open_shift("T1".to_string(), "B1".to_string(), &opener(), 1, 1).unwrap();
    book.close_shift(&first, 0, vec![], None, 2).unwrap();
    assert!(book.active_shift("T1", "B1").is_none());
    let second = book.open_shift("T1".to_string(), "B1".to_string(), &opener(), 5, 3).unwrap();
    assert_ne!(first, second);
    assert_eq!(book.active_shift("T1", "B1").unwrap().id, second);
    assert_eq!(book.shift(&first).unwrap().status, ShiftStatus::CLOSED);
}

#[test]
fn negative_float_is_refused_before_the_conflict() {
    let mut book = CashBook::new();
    book.open_shift("T1".to_string(), "B1".to_string(), &opener(), 1, 1).unwrap();
    let r = book.open_shift("T1".to_string(), "B1".to_string(), &opener(), -1, 1);
    assert_eq!(r.unwrap_err(), PosError::InvalidOpeningFloat);
    assert_eq!(book.len(), 1);
}

#[test]
fn one_cash_order_delivered_reconciles_to_zero() {
    let mut book = CashBook::new();
    let id = book.open_shift("T1".to_string(), "B1".to_string(), &opener(), 0, 1_000).unwrap();
    book.post_order_movement("T1", "B1", "65a0000000000000000000b1", 1, 50, 1_500).unwrap();
    let closed = book.close_shift(&id, 50, vec![Denomination { value: 50, qty: 1 }], None, 2_000).unwrap();
    assert_eq!(closed.cash_sales, Some(50));
    assert_eq!(closed.expected, Some(50));
    assert_eq!(closed.counted, Some(50));
    assert_eq!(closed.difference, Some(0));
    assert_eq!(closed.movements.len(), 1);
    assert_eq!(closed.movements[0].amount, 50);
}

#[test]
fn no_open_shift_refuses_the_posting() {
    let mut book = CashBook::new();
    let r = book.post_order_movement("T1", "B1", "65a0000000000000000000b1", 1, 50, 1_500);
    assert_eq!(r.unwrap_err(), PosError::NoOpenShift);
    assert_eq!(PosError::NoOpenShift.kind(), ErrorKind::Conflict);
    assert_eq!(book.len(), 0);
    assert!(!book.order_posted("65a0000000000000000000b1"));
    let id = book.open_shift("T1".to_string(), "B2".to_string(), &opener(), 0, 1).unwrap();
    let r = book.post_order_movement("T1", "B1", "65a0000000000000000000b1", 1, 50, 1_500);
    assert_eq!(r.unwrap_err(), PosError::NoOpenShift);
    assert!(book.shift(&id).unwrap().movements.is_empty());
}

#[test]
fn an_order_is_posted_once_across_shifts() {
    let mut book = CashBook::new();
    let order = "65a0000000000000000000b1";
    let first = book.open_shift("T1".to_string(), "B1".to_string(), &opener(), 0, 1).unwrap();
    book.post_order_movement("T1", "B1", order, 1, 50, 2).unwrap();
    book.post_order_movement("T1", "B1", order, 1, 50, 3).unwrap();
    assert!(book.order_posted(order));
    book.close_shift(&first, 50, vec![], None, 4).unwrap();
    let second = book.open_shift("T1".to_string(), "B1".to_string(), &opener(), 0, 5).unwrap();
    book.post_order_movement("T1", "B1", order, 1, 50, 6).unwrap();
    book.post_order_movement("T1", "B1", "65a0000000000000000000b2", 2, 30, 7).unwrap();
    let ids = vec![first.clone(), second.clone()];
    assert_eq!(count_order_movements(&book, &ids, order), 1);
    assert_eq!(count_order_movements(&book, &ids, "65a0000000000000000000b2"), 1);
    assert_eq!(book.shift(&first).unwrap().movements.len(), 1);
    assert_eq!(book.shift(&second).unwrap().movements.len(), 1);
}

#[test]
fn a_second_close_fails_and_leaves_the_summary() {
    let mut book = CashBook::new();
    let id = book.open_shift("T1".to_string(), "B1".to_string(), &opener(), 100, 1).unwrap();
    book.register_movement(&id, MovementKind::IN, 20, None, 2).unwrap();
    book.register_movement(&id, MovementKind::OUT, 30, None, 3).unwrap();
    let first = book.close_shift(&id, 250, vec![Denomination { value: 335, qty: 1 }], None, 4).unwrap();
    assert_eq!((first.expected, first.counted, first.difference), (Some(340), Some(335), Some(-5)));
    let again = book.close_shift(&id, 1, vec![], Some("x".to_string()), 5);
    assert_eq!(again.unwrap_err(), PosError::ShiftClosed);
    let kept = book.shift(&id).unwrap();
    assert_eq!((kept.expected, kept.counted, kept.difference), (Some(340), Some(335), Some(-5)));
    assert_eq!(kept.closed_at, Some(4));
    assert_eq!(kept.cash_sales, Some(250));
    assert!(kept.notes.is_none());
    assert_eq!(book.register_movement(&id, MovementKind::IN, 1, None, 6).unwrap_err(), PosError::ShiftClosed);
    assert_eq!(book.shift(&id).unwrap().movements.len(), 2);
}

#[test]
fn unknown_shifts_are_not_found() {
    let mut book = CashBook::new();
    assert_eq!(book.close_shift("nope", 0, vec![], None, 1).unwrap_err(), PosError::ShiftNotFound);
    assert_eq!(book.register_movement("nope", MovementKind::IN, 1, None, 1).unwrap_err(), PosError::ShiftNotFound);
    assert_eq!(book.register_movement("nope", MovementKind::IN, 0, None, 1).unwrap_err(), PosError::InvalidAmount);
    assert_eq!(PosError::ShiftNotFound.kind(), ErrorKind::NotFound);
    assert!(book.shift("nope").is_none());
}

#[test]
fn opening_under_a_given_identifier_keeps_it() {
    let mut book = CashBook::new();
    book.open_shift_with_id("s1".into(), "T1".into(), "B1".into(), "u".into(), "n".into(), 4, 9).unwrap();
    let s = book.shift("s1").unwrap();
    assert_eq!(s.opening_float, 4);
    assert_eq!(s.opened_at, 9);
    assert_eq!(s.user_id, "u");
    let r = book.open_shift_with_id("s2".into(), "T1".into(), "B1".into(), "u".into(), "n".into(), 4, 9);
    assert_eq!(r.unwrap_err(), PosError::ShiftAlreadyOpen);
}
