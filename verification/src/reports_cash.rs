//! The cash shift: what is in the drawer between its opening and its close.
//!
//! A shift is opened with a float, collects movements while it is open, and
//! is closed once, against a count of the drawer. A closed shift never
//! changes again.

use vstd::prelude::*;
use vstd::string::StringExecFns;
use crate::auth::require_session;
use crate::db::{Order, OrderStatus, PaymentMethod};
use crate::error::PosError;
use crate::state::{clock_secs, lookup, AppState};
use crate::text::{
    copy_opt_text, decimal, is_object_id, new_object_id, opt_text, push_decimal, same_text,
    spec_is_object_id,
};

verus! {

/// Whether a movement puts money in or takes it out.
#[derive(Debug, Clone, Copy, PartialEq, Eq, Structural)]
pub enum MovementKind {
    IN,
    OUT,
}

/// Whether a movement was keyed in or follows from an order.
#[derive(Debug, Clone, Copy, PartialEq, Eq, Structural)]
pub enum MovementSource {
    MANUAL,
    ORDER,
}

/// Whether a shift still takes movements.
#[derive(Debug, Clone, Copy, PartialEq, Eq, Structural)]
pub enum ShiftStatus {
    OPEN,
    CLOSED,
}

/// One change to what the drawer holds.
#[derive(Debug)]
pub struct CashMovement {
    pub kind: MovementKind,
    /// Minor units; positive in every movement that the ledger records.
    pub amount: i64,
    pub note: Option<String>,
    pub source: MovementSource,
    /// The order that the movement follows from; present exactly when the
    /// source is an order.
    pub ref_order_id: Option<String>,
    pub at: i64,
}

/// A movement as contracts speak of it.
pub struct MovementData {
    pub kind: MovementKind,
    pub amount: i64,
    pub note: Option<Seq<char>>,
    pub source: MovementSource,
    pub ref_order_id: Option<Seq<char>>,
    pub at: i64,
}

impl View for CashMovement {
    type V = MovementData;

    open spec fn view(&self) -> MovementData {
        MovementData {
            kind: self.kind,
            amount: self.amount,
            note: opt_text(self.note),
            source: self.source,
            ref_order_id: opt_text(self.ref_order_id),
            at: self.at,
        }
    }
}

/// So many notes or coins of one face value, in minor units.
#[derive(Debug, Clone, Copy, PartialEq, Eq, Structural)]
pub struct Denomination {
    pub value: i32,
    pub qty: i32,
}

/// A cash shift as stored.
#[derive(Debug)]
pub struct CashShift {
    pub id: String,
    pub tenant_id: String,
    pub branch_id: String,
    pub user_id: String,
    pub username: String,
    pub opened_at: i64,
    pub closed_at: Option<i64>,
    pub opening_float: i64,
    pub movements: Vec<CashMovement>,
    pub counted: Option<i64>,
    pub denominations: Option<Vec<Denomination>>,
    pub expected: Option<i64>,
    pub difference: Option<i64>,
    pub status: ShiftStatus,
    pub notes: Option<String>,
    pub manual_ins: Option<i64>,
    pub manual_outs: Option<i64>,
    pub cash_sales: Option<i64>,
}

/// A cash shift as contracts speak of it.
pub struct ShiftData {
    pub id: Seq<char>,
    pub tenant_id: Seq<char>,
    pub branch_id: Seq<char>,
    pub user_id: Seq<char>,
    pub username: Seq<char>,
    pub opened_at: i64,
    pub closed_at: Option<i64>,
    pub opening_float: i64,
    pub movements: Seq<MovementData>,
    pub counted: Option<i64>,
    pub denominations: Option<Seq<Denomination>>,
    pub expected: Option<i64>,
    pub difference: Option<i64>,
    pub status: ShiftStatus,
    pub notes: Option<Seq<char>>,
    pub manual_ins: Option<i64>,
    pub manual_outs: Option<i64>,
    pub cash_sales: Option<i64>,
}

/// The movements `ms`, each as contracts speak of it.
pub open spec fn movements_data(ms: Seq<CashMovement>) -> Seq<MovementData> {
    ms.map_values(|m: CashMovement| m@)
}

impl View for CashShift {
    type V = ShiftData;

    open spec fn view(&self) -> ShiftData {
        ShiftData {
            id: self.id@,
            tenant_id: self.tenant_id@,
            branch_id: self.branch_id@,
            user_id: self.user_id@,
            username: self.username@,
            opened_at: self.opened_at,
            closed_at: self.closed_at,
            opening_float: self.opening_float,
            movements: movements_data(self.movements@),
            counted: self.counted,
            denominations: match self.denominations {
                Some(d) => Some(d@),
                None => None,
            },
            expected: self.expected,
            difference: self.difference,
            status: self.status,
            notes: opt_text(self.notes),
            manual_ins: self.manual_ins,
            manual_outs: self.manual_outs,
            cash_sales: self.cash_sales,
        }
    }
}

/// Whether `x` can be held in sixty-four bits.
pub open spec fn fits_i64(x: int) -> bool {
    i64::MIN <= x <= i64::MAX
}

/// What the movement `m` adds to the total of the movements of kind `kind`:
/// its amount if it is of that kind (and keyed in, where only those count),
/// nothing otherwise.
pub open spec fn movement_term(m: MovementData, kind: MovementKind, manual_only: bool) -> int {
    if m.kind == kind && (!manual_only || m.source == MovementSource::MANUAL) {
        m.amount as int
    } else {
        0
    }
}

/// The sum of the amounts of the movements of kind `kind` among `ms`; with
/// `manual_only`, of those among them that were keyed in.
pub open spec fn kind_total(ms: Seq<MovementData>, kind: MovementKind, manual_only: bool) -> int
    decreases ms.len(),
{
    if ms.len() == 0 {
        0
    } else {
        kind_total(ms.drop_last(), kind, manual_only) + movement_term(ms.last(), kind, manual_only)
    }
}

/// The amount that the count `ds` comes to: the sum of face value times
/// number.
pub open spec fn counted_total(ds: Seq<Denomination>) -> int
    decreases ds.len(),
{
    if ds.len() == 0 {
        0
    } else {
        counted_total(ds.drop_last()) + ds.last().value * ds.last().qty
    }
}

/// The figures of a close.
pub struct Figures {
    /// What was keyed in as put into the drawer.
    pub manual_ins: int,
    /// What was keyed in as taken out of the drawer.
    pub manual_outs: int,
    /// What the orders of the shift brought in cash.
    pub cash_sales: int,
    /// What the drawer should hold.
    pub expected: int,
    /// What the drawer was counted to hold.
    pub counted: int,
    /// Counted less expected.
    pub difference: int,
}

/// The figures of closing `shift` against the count `ds`, with `cash_sales`
/// brought in by its orders: expected is the float plus the cash sales plus
/// what was keyed in less what was keyed out, and the difference is what was
/// counted less what was expected.
pub open spec fn close_figures(shift: ShiftData, cash_sales: i64, ds: Seq<Denomination>) -> Figures {
    let manual_ins = kind_total(shift.movements, MovementKind::IN, true);
    let manual_outs = kind_total(shift.movements, MovementKind::OUT, true);
    let expected = shift.opening_float + cash_sales + manual_ins - manual_outs;
    let counted = counted_total(ds);
    Figures {
        manual_ins,
        manual_outs,
        cash_sales: cash_sales as int,
        expected,
        counted,
        difference: counted - expected,
    }
}

/// Whether each of the figures can be held in sixty-four bits.
pub open spec fn figures_fit(f: Figures) -> bool {
    &&& fits_i64(f.manual_ins)
    &&& fits_i64(f.manual_outs)
    &&& fits_i64(f.expected)
    &&& fits_i64(f.counted)
    &&& fits_i64(f.difference)
}

/// The shift that an opening makes: open, without movements, nothing of a
/// close in it.
pub open spec fn opened_shift(
    id: Seq<char>,
    tenant_id: Seq<char>,
    branch_id: Seq<char>,
    user_id: Seq<char>,
    username: Seq<char>,
    opening_float: i64,
    now: i64,
) -> ShiftData {
    ShiftData {
        id,
        tenant_id,
        branch_id,
        user_id,
        username,
        opened_at: now,
        closed_at: None,
        opening_float,
        movements: Seq::empty(),
        counted: None,
        denominations: None,
        expected: None,
        difference: None,
        status: ShiftStatus::OPEN,
        notes: None,
        manual_ins: None,
        manual_outs: None,
        cash_sales: None,
    }
}

/// The movement that is keyed in at `now`.
pub open spec fn manual_movement(
    kind: MovementKind,
    amount: i64,
    note: Option<Seq<char>>,
    now: i64,
) -> MovementData {
    MovementData { kind, amount, note, source: MovementSource::MANUAL, ref_order_id: None, at: now }
}

/// The note of the movement that follows from the order numbered `number`.
pub open spec fn order_note(number: i32) -> Seq<char> {
    "Ingreso por pedido #"@ + decimal(number as int)
}

/// The movement that follows from the delivery of an order at `now`: its
/// total comes in.
pub open spec fn order_movement(order_id: Seq<char>, number: i32, total: i64, now: i64) -> MovementData {
    MovementData {
        kind: MovementKind::IN,
        amount: total,
        note: Some(order_note(number)),
        source: MovementSource::ORDER,
        ref_order_id: Some(order_id),
        at: now,
    }
}

/// `shift` with the movement `m` added at the end.
pub open spec fn with_movement(shift: ShiftData, m: MovementData) -> ShiftData {
    ShiftData { movements: shift.movements.push(m), ..shift }
}

/// Whether one of `ms` follows from the order `order_id`.
pub open spec fn refers_to_order(ms: Seq<MovementData>, order_id: Seq<char>) -> bool {
    exists|i: int|
        0 <= i < ms.len() && (#[trigger] ms[i]).source == MovementSource::ORDER && ms[i].ref_order_id
            == Some(order_id)
}

/// `shift` closed at `now` with the figures `f`, the count `ds` and the
/// remark `notes`.
pub open spec fn closed_shift(
    shift: ShiftData,
    f: Figures,
    ds: Seq<Denomination>,
    notes: Option<Seq<char>>,
    now: i64,
) -> ShiftData {
    ShiftData {
        closed_at: Some(now),
        counted: Some(f.counted as i64),
        denominations: Some(ds),
        expected: Some(f.expected as i64),
        difference: Some(f.difference as i64),
        status: ShiftStatus::CLOSED,
        notes,
        manual_ins: Some(f.manual_ins as i64),
        manual_outs: Some(f.manual_outs as i64),
        cash_sales: Some(f.cash_sales as i64),
        ..shift
    }
}

/// What the data model asks of a movement: a positive amount, and a
/// reference to an order exactly when it follows from one.
pub open spec fn movement_ok(m: MovementData) -> bool {
    &&& m.amount > 0
    &&& m.ref_order_id is Some <==> m.source == MovementSource::ORDER
}

/// What the data model asks of a shift: a float that is not negative,
/// movements that are in order, no order posted twice, and the figures of the
/// close present exactly in a closed shift, where they add up.
pub open spec fn shift_ok(s: ShiftData) -> bool {
    &&& s.opening_float >= 0
    &&& forall|i: int| 0 <= i < s.movements.len() ==> movement_ok(#[trigger] s.movements[i])
    &&& forall|i: int, j: int|
        0 <= i < j < s.movements.len() && s.movements[i].source == MovementSource::ORDER
            && s.movements[j].source == MovementSource::ORDER ==> (#[trigger] s.movements[i]).ref_order_id
            != (#[trigger] s.movements[j]).ref_order_id
    &&& s.status == ShiftStatus::OPEN ==> {
        &&& s.closed_at is None
        &&& s.counted is None
        &&& s.denominations is None
        &&& s.expected is None
        &&& s.difference is None
        &&& s.manual_ins is None
        &&& s.manual_outs is None
        &&& s.cash_sales is None
    }
    &&& s.status == ShiftStatus::CLOSED ==> {
        &&& s.closed_at is Some
        &&& s.denominations is Some
        &&& s.cash_sales is Some
        &&& s.manual_ins == Some(kind_total(s.movements, MovementKind::IN, true) as i64)
        &&& s.manual_outs == Some(kind_total(s.movements, MovementKind::OUT, true) as i64)
        &&& s.counted == Some(counted_total(s.denominations->Some_0) as i64)
        &&& figures_fit(close_figures(s, s.cash_sales->Some_0, s.denominations->Some_0))
        &&& s.expected == Some(
            close_figures(s, s.cash_sales->Some_0, s.denominations->Some_0).expected as i64,
        )
        &&& s.difference == Some(
            close_figures(s, s.cash_sales->Some_0, s.denominations->Some_0).difference as i64,
        )
    }
}

/// The total of the movements of one kind stays within the number of
/// movements times the largest amount.
proof fn lemma_kind_total_bounded(ms: Seq<MovementData>, kind: MovementKind, manual_only: bool)
    ensures
        -(ms.len() * 0x8000_0000_0000_0000) <= kind_total(ms, kind, manual_only) <= ms.len()
            * 0x8000_0000_0000_0000,
    decreases ms.len(),
{
    if ms.len() > 0 {
        lemma_kind_total_bounded(ms.drop_last(), kind, manual_only);
    }
}

/// A count stays within the number of its lines times the largest line.
proof fn lemma_counted_total_bounded(ds: Seq<Denomination>)
    ensures
        -(ds.len() * 0x4000_0000_0000_0000) <= counted_total(ds) <= ds.len() * 0x4000_0000_0000_0000,
    decreases ds.len(),
{
    if ds.len() > 0 {
        lemma_counted_total_bounded(ds.drop_last());
        let d = ds.last();
        assert(-0x4000_0000_0000_0000 <= d.value * d.qty <= 0x4000_0000_0000_0000)
            by (nonlinear_arith)
            requires
                -0x8000_0000 <= d.value <= 0x7fff_ffff,
                -0x8000_0000 <= d.qty <= 0x7fff_ffff,
        ;
    }
}

/// The sum of the amounts of the movements of kind `kind` among `ms`; with
/// `manual_only`, of those among them that were keyed in.
pub fn sum_movements(ms: &Vec<CashMovement>, kind: MovementKind, manual_only: bool) -> (total: i128)
    ensures
        total == kind_total(movements_data(ms@), kind, manual_only),
{
    let ghost all = movements_data(ms@);
    let mut total: i128 = 0;
    let mut i: usize = 0;
    while i < ms.len()
        invariant
            i <= ms@.len(),
            all == movements_data(ms@),
            total == kind_total(all.take(i as int), kind, manual_only),
        decreases ms@.len() - i,
    {
        proof {
            assert(all.take(i + 1).drop_last() =~= all.take(i as int));
            lemma_kind_total_bounded(all.take(i as int), kind, manual_only);
        }
        let m = &ms[i];
        if m.kind == kind && (!manual_only || m.source == MovementSource::MANUAL) {
            total = total + m.amount as i128;
        }
        i += 1;
    }
    proof {
        assert(all.take(ms@.len() as int) =~= all);
    }
    total
}

/// The amount that the count `ds` comes to.
pub fn count_denominations(ds: &Vec<Denomination>) -> (total: i128)
    ensures
        total == counted_total(ds@),
{
    let mut total: i128 = 0;
    let mut i: usize = 0;
    while i < ds.len()
        invariant
            i <= ds@.len(),
            total == counted_total(ds@.take(i as int)),
        decreases ds@.len() - i,
    {
        proof {
            assert(ds@.take(i + 1).drop_last() =~= ds@.take(i as int));
            lemma_counted_total_bounded(ds@.take(i as int));
            lemma_counted_total_bounded(ds@.take(i + 1));
        }
        let d = ds[i];
        let line: i128 = (d.value as i128) * (d.qty as i128);
        total = total + line;
        i += 1;
    }
    proof {
        assert(ds@.take(ds@.len() as int) =~= ds@);
    }
    total
}

/// Whether one of `ms` follows from the order `order_id`.
pub fn mentions_order(ms: &Vec<CashMovement>, order_id: &str) -> (found: bool)
    ensures
        found == refers_to_order(movements_data(ms@), order_id@),
{
    let wanted = order_id.to_owned();
    let ghost all = movements_data(ms@);
    let mut i: usize = 0;
    while i < ms.len()
        invariant
            i <= ms@.len(),
            wanted@ == order_id@,
            all == movements_data(ms@),
            forall|k: int|
                0 <= k < i ==> !((#[trigger] all[k]).source == MovementSource::ORDER
                    && all[k].ref_order_id == Some(order_id@)),
        decreases ms@.len() - i,
    {
        let m = &ms[i];
        assert(all[i as int] == m@);
        if m.source == MovementSource::ORDER {
            match &m.ref_order_id {
                Some(id) => {
                    if *id == wanted {
                        return true;
                    }
                },
                None => {},
            }
        }
        i += 1;
    }
    false
}

impl CashShift {
    /// A shift opened at `now` by the user `user_id` with the float
    /// `opening_float`. A float below zero is refused.
    pub fn open(
        id: String,
        tenant_id: String,
        branch_id: String,
        user_id: String,
        username: String,
        opening_float: i64,
        now: i64,
    ) -> (opened: Result<CashShift, PosError>)
        ensures
            opening_float < 0 ==> opened == Err::<CashShift, PosError>(
                PosError::InvalidOpeningFloat,
            ),
            opening_float >= 0 ==> opened is Ok && opened->Ok_0@ == opened_shift(
                id@,
                tenant_id@,
                branch_id@,
                user_id@,
                username@,
                opening_float,
                now,
            ) && shift_ok(opened->Ok_0@),
    {
        if opening_float < 0 {
            return Err(PosError::InvalidOpeningFloat);
        }
        let shift = CashShift {
            id,
            tenant_id,
            branch_id,
            user_id,
            username,
            opened_at: now,
            closed_at: None,
            opening_float,
            movements: Vec::new(),
            counted: None,
            denominations: None,
            expected: None,
            difference: None,
            status: ShiftStatus::OPEN,
            notes: None,
            manual_ins: None,
            manual_outs: None,
            cash_sales: None,
        };
        assert(shift@.movements =~= Seq::<MovementData>::empty());
        Ok(shift)
    }

    /// Adds `m` at the end of the movements.
    fn append(&mut self, m: CashMovement)
        ensures
            final(self)@ == with_movement(old(self)@, m@),
    {
        let ghost before = self.movements@;
        self.movements.push(m);
        assert(movements_data(self.movements@) =~= movements_data(before).push(m@));
    }

    /// Keys a movement into the shift at `now`. It is refused with
    /// `InvalidAmount` unless the amount is positive, and with `ShiftClosed` if
    /// the shift is closed; otherwise it is added after the movements that
    /// the shift has.
    pub fn register(&mut self, kind: MovementKind, amount: i64, note: Option<String>, now: i64) -> (
        registered: Result<(), PosError>)
        ensures
            says(
                *old(self),
                *final(self),
                registered,
                register_outcome(old(self)@, kind, amount, opt_text(note), now),
            ),
            shift_ok(old(self)@) ==> shift_ok(final(self)@),
    {
        if amount <= 0 {
            return Err(PosError::InvalidAmount);
        }
        if self.status != ShiftStatus::OPEN {
            return Err(PosError::ShiftClosed);
        }
        let m = CashMovement {
            kind,
            amount,
            note,
            source: MovementSource::MANUAL,
            ref_order_id: None,
            at: now,
        };
        proof {
            lemma_with_movement_keeps_ok(self@, m@);
        }
        self.append(m);
        Ok(())
    }

    /// Posts the delivery of the order `order_id`, numbered `number`, with the
    /// total `total`, to the shift at `now`. A closed shift refuses it with
    /// `ShiftClosed`. If the shift already has the order's movement, or the
    /// total is not positive, the shift stays as it is; otherwise the total
    /// comes in as one movement that names the order.
    pub fn post_order(&mut self, order_id: &str, number: i32, total: i64, now: i64) -> (posted:
        Result<(), PosError>)
        ensures
            says(
                *old(self),
                *final(self),
                posted,
                post_outcome(old(self)@, order_id@, number, total, now),
            ),
            shift_ok(old(self)@) ==> shift_ok(final(self)@),
    {
        if self.status != ShiftStatus::OPEN {
            return Err(PosError::ShiftClosed);
        }
        if total <= 0 || mentions_order(&self.movements, order_id) {
            return Ok(());
        }
        let mut note = "Ingreso por pedido #".to_owned();
        push_decimal(&mut note, number as i128);
        let m = CashMovement {
            kind: MovementKind::IN,
            amount: total,
            note: Some(note),
            source: MovementSource::ORDER,
            ref_order_id: Some(order_id.to_owned()),
            at: now,
        };
        proof {
            lemma_with_movement_keeps_ok(self@, m@);
        }
        self.append(m);
        Ok(())
    }

    /// Closes the shift at `now` against the count `denominations`, with
    /// `cash_sales` brought in by its orders. A closed shift refuses it with
    /// `ShiftClosed`; figures that cannot be held in sixty-four bits are
    /// refused with `AmountOutOfRange`. Otherwise the shift becomes closed and
    /// takes the figures of the close, the count and the remark.
    pub fn close(
        &mut self,
        cash_sales: i64,
        denominations: Vec<Denomination>,
        notes: Option<String>,
        now: i64,
    ) -> (closed: Result<(), PosError>)
        ensures
            says(
                *old(self),
                *final(self),
                closed,
                close_outcome(old(self)@, cash_sales, denominations@, opt_text(notes), now),
            ),
            shift_ok(old(self)@) ==> shift_ok(final(self)@),
    {
        if self.status != ShiftStatus::OPEN {
            return Err(PosError::ShiftClosed);
        }
        let manual_ins = sum_movements(&self.movements, MovementKind::IN, true);
        let manual_outs = sum_movements(&self.movements, MovementKind::OUT, true);
        let counted = count_denominations(&denominations);
        if !in_range(manual_ins) || !in_range(manual_outs) || !in_range(counted) {
            return Err(PosError::AmountOutOfRange);
        }
        let expected: i128 = self.opening_float as i128 + cash_sales as i128 + manual_ins
            - manual_outs;
        if !in_range(expected) {
            return Err(PosError::AmountOutOfRange);
        }
        let difference: i128 = counted - expected;
        if !in_range(difference) {
            return Err(PosError::AmountOutOfRange);
        }
        self.closed_at = Some(now);
        self.counted = Some(counted as i64);
        self.denominations = Some(denominations);
        self.expected = Some(expected as i64);
        self.difference = Some(difference as i64);
        self.status = ShiftStatus::CLOSED;
        self.notes = notes;
        self.manual_ins = Some(manual_ins as i64);
        self.manual_outs = Some(manual_outs as i64);
        self.cash_sales = Some(cash_sales);
        Ok(())
    }

    /// A copy of the shift that holds what the shift holds.
    pub fn duplicate(&self) -> (copy: CashShift)
        ensures
            copy@ == self@,
    {
        let mut movements: Vec<CashMovement> = Vec::new();
        let mut i: usize = 0;
        while i < self.movements.len()
            invariant
                i <= self.movements@.len(),
                movements@.len() == i,
                movements_data(movements@) == movements_data(self.movements@).take(i as int),
            decreases self.movements@.len() - i,
        {
            let m = &self.movements[i];
            let copy = CashMovement {
                kind: m.kind,
                amount: m.amount,
                note: copy_opt_text(&m.note),
                source: m.source,
                ref_order_id: copy_opt_text(&m.ref_order_id),
                at: m.at,
            };
            movements.push(copy);
            i += 1;
        }
        assert(movements_data(self.movements@).take(self.movements@.len() as int)
            =~= movements_data(self.movements@));
        let denominations = match &self.denominations {
            Some(ds) => {
                let mut copy: Vec<Denomination> = Vec::new();
                let mut k: usize = 0;
                while k < ds.len()
                    invariant
                        k <= ds@.len(),
                        copy@ == ds@.take(k as int),
                    decreases ds@.len() - k,
                {
                    copy.push(ds[k]);
                    k += 1;
                }
                assert(ds@.take(ds@.len() as int) =~= ds@);
                Some(copy)
            },
            None => None,
        };
        CashShift {
            id: self.id.clone(),
            tenant_id: self.tenant_id.clone(),
            branch_id: self.branch_id.clone(),
            user_id: self.user_id.clone(),
            username: self.username.clone(),
            opened_at: self.opened_at,
            closed_at: self.closed_at,
            opening_float: self.opening_float,
            movements,
            counted: self.counted,
            denominations,
            expected: self.expected,
            difference: self.difference,
            status: self.status,
            notes: copy_opt_text(&self.notes),
            manual_ins: self.manual_ins,
            manual_outs: self.manual_outs,
            cash_sales: self.cash_sales,
        }
    }
}

/// Whether `x` can be held in sixty-four bits.
fn in_range(x: i128) -> (fits: bool)
    ensures
        fits == fits_i64(x as int),
{
    -0x8000_0000_0000_0000 <= x && x <= 0x7fff_ffff_ffff_ffff
}

/// What a change to a shift comes to: the shift after it, or why it was
/// refused.
pub enum Outcome {
    Changed(ShiftData),
    Refused(PosError),
}

/// Whether a change that found the shift as `before`, left it as `after` and
/// answered `result` did what `outcome` says: on a refusal the shift is
/// untouched and the answer is the refusal, otherwise the shift holds what
/// the outcome holds.
pub open spec fn says(
    before: CashShift,
    after: CashShift,
    result: Result<(), PosError>,
    outcome: Outcome,
) -> bool {
    match outcome {
        Outcome::Changed(data) => result == Ok::<(), PosError>(()) && after@ == data,
        Outcome::Refused(e) => result == Err::<(), PosError>(e) && after == before,
    }
}

/// What keying a movement into `shift` comes to.
pub open spec fn register_outcome(
    shift: ShiftData,
    kind: MovementKind,
    amount: i64,
    note: Option<Seq<char>>,
    now: i64,
) -> Outcome {
    if amount <= 0 {
        Outcome::Refused(PosError::InvalidAmount)
    } else if shift.status != ShiftStatus::OPEN {
        Outcome::Refused(PosError::ShiftClosed)
    } else {
        Outcome::Changed(with_movement(shift, manual_movement(kind, amount, note, now)))
    }
}

/// What posting the delivery of an order to `shift` comes to.
pub open spec fn post_outcome(
    shift: ShiftData,
    order_id: Seq<char>,
    number: i32,
    total: i64,
    now: i64,
) -> Outcome {
    if shift.status != ShiftStatus::OPEN {
        Outcome::Refused(PosError::ShiftClosed)
    } else if total <= 0 || refers_to_order(shift.movements, order_id) {
        Outcome::Changed(shift)
    } else {
        Outcome::Changed(with_movement(shift, order_movement(order_id, number, total, now)))
    }
}

/// What closing `shift` comes to.
pub open spec fn close_outcome(
    shift: ShiftData,
    cash_sales: i64,
    ds: Seq<Denomination>,
    notes: Option<Seq<char>>,
    now: i64,
) -> Outcome {
    if shift.status != ShiftStatus::OPEN {
        Outcome::Refused(PosError::ShiftClosed)
    } else if !figures_fit(close_figures(shift, cash_sales, ds)) {
        Outcome::Refused(PosError::AmountOutOfRange)
    } else {
        Outcome::Changed(closed_shift(shift, close_figures(shift, cash_sales, ds), ds, notes, now))
    }
}

/// A shift that is in order stays so when it is closed with figures that can
/// be held in sixty-four bits.
pub proof fn lemma_close_keeps_ok(
    shift: ShiftData,
    cash_sales: i64,
    ds: Seq<Denomination>,
    notes: Option<Seq<char>>,
    now: i64,
)
    requires
        shift.status == ShiftStatus::OPEN,
        figures_fit(close_figures(shift, cash_sales, ds)),
    ensures
        shift_ok(shift) ==> shift_ok(
            closed_shift(shift, close_figures(shift, cash_sales, ds), ds, notes, now),
        ),
{
}

/// A shift that is in order stays so when a movement that is in order, and
/// that names no order already posted, is added to it while it is open.
pub proof fn lemma_with_movement_keeps_ok(shift: ShiftData, m: MovementData)
    requires
        shift.status == ShiftStatus::OPEN,
        movement_ok(m),
        m.source == MovementSource::ORDER ==> !refers_to_order(shift.movements, m.ref_order_id->Some_0),
    ensures
        shift_ok(shift) ==> shift_ok(with_movement(shift, m)),
{
}

/// One page of a listing.
#[derive(Debug)]
pub struct Page<T> {
    pub data: Vec<T>,
    /// How many entries the whole listing has.
    pub total: i64,
    pub page: i64,
    pub page_size: i64,
}

/// The kind of movement that a name stands for.
pub open spec fn spec_parse_kind(name: Seq<char>) -> Option<MovementKind> {
    if name == "IN"@ {
        Some(MovementKind::IN)
    } else if name == "OUT"@ {
        Some(MovementKind::OUT)
    } else {
        None
    }
}

/// The kind of movement that `name` stands for, if it is the name of one.
pub fn parse_kind(name: &str) -> (kind: Option<MovementKind>)
    ensures
        kind == spec_parse_kind(name@),
{
    if same_text(name, "IN") {
        Some(MovementKind::IN)
    } else if same_text(name, "OUT") {
        Some(MovementKind::OUT)
    } else {
        None
    }
}

/// What a shift that the store returned comes to, with the shift taken by
/// what it holds.
pub open spec fn shift_data(shift: Option<CashShift>) -> Option<ShiftData> {
    match shift {
        Some(s) => Some(s@),
        None => None,
    }
}

/// Whether `result` hands back a shift that holds `data`.
pub open spec fn hands_back(result: Result<CashShift, PosError>, data: ShiftData) -> bool {
    result matches Ok(shift) && shift@ == data
}

/// Opens a shift for the tenant and branch at `now`, in milliseconds since the
/// epoch, on behalf of the user of the session `session_id`.
///
/// `open_exists` says whether the store has an open shift for the tenant and
/// branch. The opening is refused, in this order: with `SessionInvalid`
/// without a live session, with `InvalidOpeningFloat` for a float below zero,
/// and with `ShiftAlreadyOpen` if there is an open shift. Otherwise the new
/// shift is handed back: open, without movements, under a newly made
/// identifier, opened by the user of the session.
pub fn cash_open_shift(
    state: &AppState,
    session_id: &str,
    now: i64,
    tenant_id: String,
    branch_id: String,
    opening_float: i64,
    open_exists: bool,
) -> (result: Result<CashShift, PosError>)
    ensures
        match lookup(state.sessions@, session_id@, clock_secs(now)) {
            None => result == Err::<CashShift, PosError>(PosError::SessionInvalid),
            Some(session) => if opening_float < 0 {
                result == Err::<CashShift, PosError>(PosError::InvalidOpeningFloat)
            } else if open_exists {
                result == Err::<CashShift, PosError>(PosError::ShiftAlreadyOpen)
            } else {
                &&& result matches Ok(shift)
                &&& spec_is_object_id(shift.id@)
                &&& shift@ == opened_shift(
                    shift.id@,
                    tenant_id@,
                    branch_id@,
                    session.user_id,
                    session.username,
                    opening_float,
                    now,
                )
                &&& shift_ok(shift@)
            },
        },
{
    let session = match require_session(state, session_id, clock_secs(now)) {
        Ok(session) => session,
        Err(e) => {
            return Err(e);
        },
    };
    if opening_float < 0 {
        return Err(PosError::InvalidOpeningFloat);
    }
    if open_exists {
        return Err(PosError::ShiftAlreadyOpen);
    }
    CashShift::open(
        new_object_id(),
        tenant_id,
        branch_id,
        session.user_id,
        session.username,
        opening_float,
        now,
    )
}

/// What the store did with a document that was offered to it.
#[derive(Debug, Clone, Copy, PartialEq, Eq, Structural)]
pub enum Stored {
    /// It took the document.
    Done,
    /// It refused the document because one like it is there already.
    Duplicate,
    /// It failed.
    Failed,
}

/// What an opening comes to once the store has answered: it stands if the
/// store took the shift, it is a conflict if the store already had an open
/// shift for the tenant and branch, and a store failure otherwise. So, of
/// openings that reach the store at the same time, the store lets one
/// stand.
pub fn after_shift_stored(stored: Stored) -> (result: Result<(), PosError>)
    ensures
        result == (match stored {
            Stored::Done => Ok::<(), PosError>(()),
            Stored::Duplicate => Err::<(), PosError>(PosError::ShiftAlreadyOpen),
            Stored::Failed => Err::<(), PosError>(PosError::Store),
        }),
{
    match stored {
        Stored::Done => Ok(()),
        Stored::Duplicate => Err(PosError::ShiftAlreadyOpen),
        Stored::Failed => Err(PosError::Store),
    }
}

/// The open shift of the tenant and branch, if `found`, which the store
/// returned for it, is that. Without a live session the request is refused
/// with `SessionInvalid`.
pub fn cash_get_active_shift(
    state: &AppState,
    session_id: &str,
    now: i64,
    tenant_id: &str,
    branch_id: &str,
    found: Option<CashShift>,
) -> (result: Result<Option<CashShift>, PosError>)
    ensures
        match lookup(state.sessions@, session_id@, clock_secs(now)) {
            None => result == Err::<Option<CashShift>, PosError>(PosError::SessionInvalid),
            Some(_) => result == Ok::<Option<CashShift>, PosError>(
                match found {
                    Some(shift) => if shift.status == ShiftStatus::OPEN && shift.tenant_id@
                        == tenant_id@ && shift.branch_id@ == branch_id@ {
                        found
                    } else {
                        None
                    },
                    None => None,
                },
            ),
        },
{
    match require_session(state, session_id, clock_secs(now)) {
        Ok(_) => {},
        Err(e) => {
            return Err(e);
        },
    }
    match found {
        Some(shift) => {
            if shift.status == ShiftStatus::OPEN && same_text(shift.tenant_id.as_str(), tenant_id)
                && same_text(shift.branch_id.as_str(), branch_id) {
                Ok(Some(shift))
            } else {
                Ok(None)
            }
        },
        None => Ok(None),
    }
}

/// What keying a movement into the shift `shift_id` does.
///
/// It is refused, in this order: with `SessionInvalid` without a live
/// session; with `InvalidKind` if `kind` names no kind; with `InvalidAmount`
/// unless the amount is positive; with `InvalidId` if `shift_id` is not
/// written as an identifier; with `ShiftNotFound` if the store has no such
/// shift; with `ShiftClosed` if the shift is closed. Otherwise the movement
/// is added after the movements that the shift has.
pub open spec fn register_decision(
    session_live: bool,
    shift_id: Seq<char>,
    kind: Seq<char>,
    amount: i64,
    note: Option<Seq<char>>,
    shift: Option<ShiftData>,
    now: i64,
) -> Outcome {
    if !session_live {
        Outcome::Refused(PosError::SessionInvalid)
    } else if spec_parse_kind(kind) is None {
        Outcome::Refused(PosError::InvalidKind)
    } else if amount <= 0 {
        Outcome::Refused(PosError::InvalidAmount)
    } else if !spec_is_object_id(shift_id) {
        Outcome::Refused(PosError::InvalidId)
    } else if shift is None {
        Outcome::Refused(PosError::ShiftNotFound)
    } else {
        register_outcome(shift->Some_0, spec_parse_kind(kind)->Some_0, amount, note, now)
    }
}

/// Whether `result` is what `outcome` says: the refusal, or a shift that
/// holds what the outcome holds.
pub open spec fn answers_with(result: Result<CashShift, PosError>, outcome: Outcome) -> bool {
    match outcome {
        Outcome::Changed(data) => hands_back(result, data),
        Outcome::Refused(e) => result == Err::<CashShift, PosError>(e),
    }
}

/// Keys a movement of the kind named `kind` into the shift `shift_id` at
/// `now`, in milliseconds since the epoch. `shift` is what the store returned
/// for `shift_id`. What is done is what `register_decision` says; the shift
/// handed back is the one to store.
pub fn cash_register_movement(
    state: &AppState,
    session_id: &str,
    now: i64,
    shift_id: &str,
    kind: &str,
    amount: i64,
    note: Option<String>,
    shift: Option<CashShift>,
) -> (result: Result<CashShift, PosError>)
    ensures
        answers_with(
            result,
            register_decision(
                lookup(state.sessions@, session_id@, clock_secs(now)) is Some,
                shift_id@,
                kind@,
                amount,
                opt_text(note),
                shift_data(shift),
                now,
            ),
        ),
        result matches Ok(after) ==> (shift_ok(shift->Some_0@) ==> shift_ok(after@)),
{
    match require_session(state, session_id, clock_secs(now)) {
        Ok(_) => {},
        Err(e) => {
            return Err(e);
        },
    }
    let kind = match parse_kind(kind) {
        Some(kind) => kind,
        None => {
            return Err(PosError::InvalidKind);
        },
    };
    if amount <= 0 {
        return Err(PosError::InvalidAmount);
    }
    if !is_object_id(shift_id) {
        return Err(PosError::InvalidId);
    }
    let mut shift = match shift {
        Some(shift) => shift,
        None => {
            return Err(PosError::ShiftNotFound);
        },
    };
    match shift.register(kind, amount, note, now) {
        Ok(()) => Ok(shift),
        Err(e) => Err(e),
    }
}

/// What keying in a movement comes to once the store has answered. The
/// store adds the movement only to a shift that is still open, and `matched`
/// says whether it found the shift so. If it did not, the shift was closed
/// in between: the movement is refused with `ShiftClosed` and the closed
/// shift stays as it is. A store that `failed` gives `Store`, whatever else
/// is said.
pub fn after_movement_stored(matched: bool, failed: bool) -> (result: Result<(), PosError>)
    ensures
        result == (if failed {
            Err::<(), PosError>(PosError::Store)
        } else if matched {
            Ok::<(), PosError>(())
        } else {
            Err::<(), PosError>(PosError::ShiftClosed)
        }),
{
    if failed {
        Err(PosError::Store)
    } else if matched {
        Ok(())
    } else {
        Err(PosError::ShiftClosed)
    }
}

/// What closing the shift `shift_id` does.
///
/// It is refused, in this order: with `SessionInvalid` without a live
/// session; with `InvalidId` if `shift_id` is not written as an identifier;
/// with `ShiftNotFound` if the store has no such shift; with `ShiftClosed` if
/// the shift is closed; with `AmountOutOfRange` if a figure of the close
/// cannot be held in sixty-four bits. Otherwise the shift is closed with the
/// figures of the close.
pub open spec fn close_decision(
    session_live: bool,
    shift_id: Seq<char>,
    shift: Option<ShiftData>,
    cash_sales: i64,
    ds: Seq<Denomination>,
    notes: Option<Seq<char>>,
    now: i64,
) -> Outcome {
    if !session_live {
        Outcome::Refused(PosError::SessionInvalid)
    } else if !spec_is_object_id(shift_id) {
        Outcome::Refused(PosError::InvalidId)
    } else if shift is None {
        Outcome::Refused(PosError::ShiftNotFound)
    } else {
        close_outcome(shift->Some_0, cash_sales, ds, notes, now)
    }
}

/// Closes the shift `shift_id` at `now`, in milliseconds since the epoch,
/// against the count `denominations`. `shift` is what the store returned for
/// `shift_id`, and `cash_sales` what the orders of the shift brought in cash.
/// What is done is what `close_decision` says; the shift handed back is the
/// one to store in place of the open one.
pub fn cash_close_shift(
    state: &AppState,
    session_id: &str,
    now: i64,
    shift_id: &str,
    shift: Option<CashShift>,
    cash_sales: i64,
    denominations: Vec<Denomination>,
    notes: Option<String>,
) -> (result: Result<CashShift, PosError>)
    ensures
        answers_with(
            result,
            close_decision(
                lookup(state.sessions@, session_id@, clock_secs(now)) is Some,
                shift_id@,
                shift_data(shift),
                cash_sales,
                denominations@,
                opt_text(notes),
                now,
            ),
        ),
        result matches Ok(after) ==> (shift_ok(shift->Some_0@) ==> shift_ok(after@)),
{
    match require_session(state, session_id, clock_secs(now)) {
        Ok(_) => {},
        Err(e) => {
            return Err(e);
        },
    }
    if !is_object_id(shift_id) {
        return Err(PosError::InvalidId);
    }
    let mut shift = match shift {
        Some(shift) => shift,
        None => {
            return Err(PosError::ShiftNotFound);
        },
    };
    match shift.close(cash_sales, denominations, notes, now) {
        Ok(()) => Ok(shift),
        Err(e) => Err(e),
    }
}

/// What the close of a shift comes to once the store has answered. The store
/// writes the close only over the shift as it was read, still open and with
/// the movements that the figures were made from, and `matched` says whether
/// it found the shift so. If it did not and the shift is not open any more,
/// another close came first: this one is refused with `ShiftClosed`, and the
/// figures of the first stay. If it did not and the shift is `still_open`,
/// a movement came in between: this close is refused with `ShiftChanged`,
/// nothing is written, and the caller may ask again. A store that `failed`
/// gives `Store`, whatever else is said.
pub fn after_close_stored(matched: bool, failed: bool, still_open: bool) -> (result: Result<
    (),
    PosError,
>)
    ensures
        result == (if failed {
            Err::<(), PosError>(PosError::Store)
        } else if matched {
            Ok::<(), PosError>(())
        } else if still_open {
            Err::<(), PosError>(PosError::ShiftChanged)
        } else {
            Err::<(), PosError>(PosError::ShiftClosed)
        }),
{
    if failed {
        Err(PosError::Store)
    } else if matched {
        Ok(())
    } else if still_open {
        Err(PosError::ShiftChanged)
    } else {
        Err(PosError::ShiftClosed)
    }
}

/// Whether the store writes a close that was made from the shift as it was
/// `read` over the shift as it `stands` when the close reaches the store: it
/// does so only over a shift that is still open and has as many movements as
/// were read.
pub open spec fn close_is_written(read: ShiftData, stands: ShiftData) -> bool {
    stands.status == ShiftStatus::OPEN && stands.movements.len() == read.movements.len()
}

/// `read` with the movements `more` added at the end: the shift as it stands
/// in the store once these movements came in after it was read.
pub open spec fn with_movements(read: ShiftData, more: Seq<MovementData>) -> ShiftData {
    ShiftData { movements: read.movements + more, ..read }
}

/// A close leaves no movement out. Movements are only ever added at the end
/// of an open shift. So if movements came in between the reading of a shift
/// and the writing of its close, the store does not write the close, and
/// `after_close_stored` answers `ShiftChanged`; and if it writes the close,
/// the shift stands as it was read, and the figures written are those of all
/// its movements.
pub proof fn lemma_close_leaves_no_movement_out(read: ShiftData, more: Seq<MovementData>)
    requires
        read.status == ShiftStatus::OPEN,
    ensures
        close_is_written(read, with_movements(read, more)) <==> more.len() == 0,
        close_is_written(read, with_movements(read, more)) ==> with_movements(read, more) == read,
{
    if more.len() == 0 {
        assert(read.movements + more =~= read.movements);
    }
}

/// Whether the order `o` is a cash sale of `shift` up to `now`: delivered,
/// paid in cash, of the shift's tenant and branch, and created between the
/// opening of the shift and `now`, both included.
pub open spec fn is_cash_sale(o: Order, shift: ShiftData, now: i64) -> bool {
    &&& o.status == OrderStatus::DELIVERED
    &&& o.payment_method == PaymentMethod::CASH
    &&& o.tenant_id@ == shift.tenant_id
    &&& o.branch_id@ == shift.branch_id
    &&& shift.opened_at <= o.created_at <= now
}

/// The sum of the totals of the cash sales of `shift` among `orders`.
pub open spec fn cash_sales_total(orders: Seq<Order>, shift: ShiftData, now: i64) -> int
    decreases orders.len(),
{
    if orders.len() == 0 {
        0
    } else {
        cash_sales_total(orders.drop_last(), shift, now) + if is_cash_sale(orders.last(), shift, now) {
            orders.last().total as int
        } else {
            0
        }
    }
}

/// The cash sales stay within the number of orders times the largest total.
proof fn lemma_cash_sales_bounded(orders: Seq<Order>, shift: ShiftData, now: i64)
    ensures
        -(orders.len() * 0x8000_0000_0000_0000) <= cash_sales_total(orders, shift, now) <= orders.len()
            * 0x8000_0000_0000_0000,
    decreases orders.len(),
{
    if orders.len() > 0 {
        lemma_cash_sales_bounded(orders.drop_last(), shift, now);
    }
}

/// What the orders `orders` brought `shift` in cash up to `now`: the sum of
/// the totals of its cash sales. A sum that cannot be held in sixty-four bits
/// is refused with `AmountOutOfRange`.
pub fn cash_sales(orders: &Vec<Order>, shift: &CashShift, now: i64) -> (sales: Result<i64, PosError>)
    ensures
        sales == (if fits_i64(cash_sales_total(orders@, shift@, now)) {
            Ok::<i64, PosError>(cash_sales_total(orders@, shift@, now) as i64)
        } else {
            Err::<i64, PosError>(PosError::AmountOutOfRange)
        }),
{
    let mut total: i128 = 0;
    let mut i: usize = 0;
    while i < orders.len()
        invariant
            i <= orders@.len(),
            total == cash_sales_total(orders@.take(i as int), shift@, now),
        decreases orders@.len() - i,
    {
        proof {
            assert(orders@.take(i + 1).drop_last() =~= orders@.take(i as int));
            lemma_cash_sales_bounded(orders@.take(i as int), shift@, now);
        }
        let o = &orders[i];
        if o.status == OrderStatus::DELIVERED && o.payment_method == PaymentMethod::CASH
            && same_text(o.tenant_id.as_str(), shift.tenant_id.as_str()) && same_text(
            o.branch_id.as_str(),
            shift.branch_id.as_str(),
        ) && shift.opened_at <= o.created_at && o.created_at <= now {
            total = total + o.total as i128;
        }
        i += 1;
    }
    proof {
        assert(orders@.take(orders@.len() as int) =~= orders@);
    }
    if in_range(total) {
        Ok(total as i64)
    } else {
        Err(PosError::AmountOutOfRange)
    }
}

/// The total `x` if it can be held in sixty-four bits.
pub open spec fn held(x: int) -> Option<i64> {
    if fits_i64(x) {
        Some(x as i64)
    } else {
        None
    }
}

/// `shift` as a listing shows it: with what was keyed in and what was keyed
/// out, the sums of the amounts of its movements of either kind that were
/// keyed in by hand. A sum that cannot be held in sixty-four bits is left
/// out. Nothing else of the shift differs.
pub open spec fn listed_shift(shift: ShiftData) -> ShiftData {
    ShiftData {
        manual_ins: held(kind_total(shift.movements, MovementKind::IN, true)),
        manual_outs: held(kind_total(shift.movements, MovementKind::OUT, true)),
        ..shift
    }
}

/// A closed shift is listed as it was stored: the sums that a listing shows
/// are those that its close wrote down.
pub proof fn lemma_closed_shift_is_listed_as_stored(shift: ShiftData)
    requires
        shift_ok(shift),
        shift.status == ShiftStatus::CLOSED,
    ensures
        listed_shift(shift) == shift,
{
}

/// Puts into a listed shift what was keyed in and what was keyed out: the
/// sums of the amounts of its movements of either kind that were keyed in by
/// hand; what orders brought is not among them. For an open shift these are
/// the sums so far; for a closed one they are those that its close stored. A
/// sum that cannot be held in sixty-four bits is left out. Nothing else of
/// the shift changes.
pub fn with_movement_totals(shift: &mut CashShift)
    ensures
        final(shift)@ == listed_shift(old(shift)@),
{
    let ins = sum_movements(&shift.movements, MovementKind::IN, true);
    let outs = sum_movements(&shift.movements, MovementKind::OUT, true);
    shift.manual_ins = if in_range(ins) {
        Some(ins as i64)
    } else {
        None
    };
    shift.manual_outs = if in_range(outs) {
        Some(outs as i64)
    } else {
        None
    };
}

/// Puts into each listed shift what was keyed in and what was keyed out. The
/// shifts stay in their order, and a closed shift stays as it was stored.
pub fn cash_list_shifts(shifts: &mut Vec<CashShift>)
    ensures
        final(shifts)@.len() == old(shifts)@.len(),
        forall|k: int|
            0 <= k < old(shifts)@.len() ==> (#[trigger] final(shifts)@[k])@ == listed_shift(
                old(shifts)@[k]@,
            ),
{
    let ghost before = shifts@;
    let mut i: usize = 0;
    while i < shifts.len()
        invariant
            i <= shifts@.len(),
            shifts@.len() == before.len(),
            forall|k: int| 0 <= k < i ==> (#[trigger] shifts@[k])@ == listed_shift(before[k]@),
            forall|k: int| i <= k < shifts@.len() ==> #[trigger] shifts@[k] == before[k],
        decreases shifts@.len() - i,
    {
        let mut shift = shifts.remove(i);
        with_movement_totals(&mut shift);
        shifts.insert(i, shift);
        i += 1;
    }
}

} // verus!
