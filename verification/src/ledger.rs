//! The ledger of cash shifts: every shift of every branch, and the four
//! changes that can be made to it.
//!
//! Each change is one step: it finds the book in one state and leaves it in
//! the next, with nothing in between for another change to see. What holds of
//! every sequence of steps therefore holds of changes that arrive at the same
//! time, in whatever order they are taken.

use vstd::prelude::*;
use crate::error::{ErrorKind, PosError};
use crate::reports_cash::{
    close_figures, close_outcome, figures_fit, lemma_close_keeps_ok, lemma_with_movement_keeps_ok,
    manual_movement, mentions_order, opened_shift, order_movement, post_outcome, refers_to_order,
    register_outcome, shift_ok, CashShift, Denomination, MovementData, MovementKind,
    MovementSource, Outcome, ShiftData, ShiftStatus,
};
use crate::state::Session;
use crate::text::{new_object_id, opt_text, spec_is_object_id};

verus! {

/// What a shift is looked up by.
pub enum Probe {
    /// The open shift of a tenant and branch.
    OpenFor { tenant_id: Seq<char>, branch_id: Seq<char> },
    /// The shift with an identifier.
    WithId { id: Seq<char> },
}

/// Whether `shift` is what `probe` looks for.
pub open spec fn answers_probe(shift: ShiftData, probe: Probe) -> bool {
    match probe {
        Probe::OpenFor { tenant_id, branch_id } => shift.status == ShiftStatus::OPEN
            && shift.tenant_id == tenant_id && shift.branch_id == branch_id,
        Probe::WithId { id } => shift.id == id,
    }
}

/// The place of the first shift in `book` that `probe` looks for.
pub open spec fn first_match(book: Seq<ShiftData>, probe: Probe) -> Option<int>
    decreases book.len(),
{
    if book.len() == 0 {
        None
    } else {
        match first_match(book.drop_last(), probe) {
            Some(i) => Some(i),
            None => if answers_probe(book.last(), probe) {
                Some(book.len() - 1)
            } else {
                None
            },
        }
    }
}

/// The place of the open shift of the tenant and branch.
pub open spec fn find_open(book: Seq<ShiftData>, tenant_id: Seq<char>, branch_id: Seq<char>) -> Option<
    int,
> {
    first_match(book, Probe::OpenFor { tenant_id, branch_id })
}

/// The place of the shift with the identifier `id`.
pub open spec fn find_shift(book: Seq<ShiftData>, id: Seq<char>) -> Option<int> {
    first_match(book, Probe::WithId { id })
}

/// Whether some shift in `book` has a movement that follows from the order
/// `order_id`.
pub open spec fn posted(book: Seq<ShiftData>, order_id: Seq<char>) -> bool {
    exists|i: int| 0 <= i < book.len() && refers_to_order((#[trigger] book[i]).movements, order_id)
}

/// One change to the ledger.
pub enum LedgerOp {
    /// A shift is opened for a tenant and branch.
    Open {
        id: Seq<char>,
        tenant_id: Seq<char>,
        branch_id: Seq<char>,
        user_id: Seq<char>,
        username: Seq<char>,
        opening_float: i64,
        now: i64,
    },
    /// A movement is keyed into a shift.
    Register { shift_id: Seq<char>, kind: MovementKind, amount: i64, note: Option<Seq<char>>, now: i64 },
    /// The delivery of an order is posted to the open shift of its tenant and
    /// branch.
    Post {
        tenant_id: Seq<char>,
        branch_id: Seq<char>,
        order_id: Seq<char>,
        number: i32,
        total: i64,
        now: i64,
    },
    /// A shift is closed against a count.
    Close {
        shift_id: Seq<char>,
        cash_sales: i64,
        denominations: Seq<Denomination>,
        notes: Option<Seq<char>>,
        now: i64,
    },
}

/// The book after a change, and what the change answered.
pub struct Step {
    pub book: Seq<ShiftData>,
    pub result: Result<(), PosError>,
}

/// The step that refuses with `e` and leaves `book` as it is.
pub open spec fn refused(book: Seq<ShiftData>, e: PosError) -> Step {
    Step { book, result: Err(e) }
}

/// The step that `outcome` makes of the shift at `i`.
pub open spec fn settle(book: Seq<ShiftData>, i: int, outcome: Outcome) -> Step {
    match outcome {
        Outcome::Changed(shift) => Step { book: book.update(i, shift), result: Ok(()) },
        Outcome::Refused(e) => refused(book, e),
    }
}

/// What the change `op` makes of `book`.
///
/// An opening is refused for a float below zero, and while the tenant and
/// branch have an open shift. A movement is refused for an amount that is not
/// positive, for a shift that the book does not have, and for a closed shift.
/// A posting is refused while the tenant and branch have no open shift; it
/// changes nothing if the order was posted before, in whatever shift. A close
/// is refused for a shift that the book does not have and for a closed shift.
pub open spec fn step(book: Seq<ShiftData>, op: LedgerOp) -> Step {
    match op {
        LedgerOp::Open { id, tenant_id, branch_id, user_id, username, opening_float, now } => {
            if opening_float < 0 {
                refused(book, PosError::InvalidOpeningFloat)
            } else if find_open(book, tenant_id, branch_id) is Some {
                refused(book, PosError::ShiftAlreadyOpen)
            } else {
                Step {
                    book: book.push(
                        opened_shift(id, tenant_id, branch_id, user_id, username, opening_float, now),
                    ),
                    result: Ok(()),
                }
            }
        },
        LedgerOp::Register { shift_id, kind, amount, note, now } => {
            if amount <= 0 {
                refused(book, PosError::InvalidAmount)
            } else {
                match find_shift(book, shift_id) {
                    None => refused(book, PosError::ShiftNotFound),
                    Some(i) => settle(book, i, register_outcome(book[i], kind, amount, note, now)),
                }
            }
        },
        LedgerOp::Post { tenant_id, branch_id, order_id, number, total, now } => {
            match find_open(book, tenant_id, branch_id) {
                None => refused(book, PosError::NoOpenShift),
                Some(i) => if posted(book, order_id) {
                    Step { book, result: Ok(()) }
                } else {
                    settle(book, i, post_outcome(book[i], order_id, number, total, now))
                },
            }
        },
        LedgerOp::Close { shift_id, cash_sales, denominations, notes, now } => {
            match find_shift(book, shift_id) {
                None => refused(book, PosError::ShiftNotFound),
                Some(i) => settle(
                    book,
                    i,
                    close_outcome(book[i], cash_sales, denominations, notes, now),
                ),
            }
        },
    }
}

/// The book after the changes `ops`, made in order.
pub open spec fn run(book: Seq<ShiftData>, ops: Seq<LedgerOp>) -> Seq<ShiftData>
    decreases ops.len(),
{
    if ops.len() == 0 {
        book
    } else {
        step(run(book, ops.drop_last()), ops.last()).book
    }
}

/// How many of the changes `ops`, made in order from `book`, answered `result`.
pub open spec fn count_answers(book: Seq<ShiftData>, ops: Seq<LedgerOp>, result: Result<(), PosError>) -> nat
    decreases ops.len(),
{
    if ops.len() == 0 {
        0
    } else {
        let earlier = count_answers(book, ops.drop_last(), result);
        if step(run(book, ops.drop_last()), ops.last()).result == result {
            earlier + 1
        } else {
            earlier
        }
    }
}

/// What `first_match` finds is the first shift that the probe looks for, and
/// it finds nothing only where there is none.
pub proof fn lemma_first_match(book: Seq<ShiftData>, probe: Probe)
    ensures
        match first_match(book, probe) {
            Some(i) => {
                &&& 0 <= i < book.len()
                &&& answers_probe(book[i], probe)
                &&& forall|j: int| 0 <= j < i ==> !answers_probe(#[trigger] book[j], probe)
            },
            None => forall|j: int| 0 <= j < book.len() ==> !answers_probe(#[trigger] book[j], probe),
        },
    decreases book.len(),
{
    if book.len() > 0 {
        lemma_first_match(book.drop_last(), probe);
        match first_match(book.drop_last(), probe) {
            Some(i) => {
                assert forall|j: int| 0 <= j < i implies !answers_probe(#[trigger] book[j], probe) by {
                    assert(book.drop_last()[j] == book[j]);
                }
            },
            None => {
                assert forall|j: int| 0 <= j < book.len() - 1 implies !answers_probe(
                    #[trigger] book[j],
                    probe,
                ) by {
                    assert(book.drop_last()[j] == book[j]);
                }
            },
        }
    }
}

/// The first shift that the probe looks for is what `first_match` finds.
pub proof fn lemma_first_match_is(book: Seq<ShiftData>, probe: Probe, i: int)
    requires
        0 <= i < book.len(),
        answers_probe(book[i], probe),
        forall|j: int| 0 <= j < i ==> !answers_probe(#[trigger] book[j], probe),
    ensures
        first_match(book, probe) == Some(i),
{
    lemma_first_match(book, probe);
}

/// No tenant and branch has two open shifts.
pub open spec fn single_open(book: Seq<ShiftData>) -> bool {
    forall|i: int, j: int|
        0 <= i < j < book.len() && (#[trigger] book[i]).status == ShiftStatus::OPEN && (
        #[trigger] book[j]).status == ShiftStatus::OPEN ==> !(book[i].tenant_id == book[j].tenant_id
            && book[i].branch_id == book[j].branch_id)
}

/// A change never gives a tenant and branch a second open shift.
pub proof fn lemma_step_keeps_single_open(book: Seq<ShiftData>, op: LedgerOp)
    requires
        single_open(book),
    ensures
        single_open(step(book, op).book),
{
    let after = step(book, op).book;
    match op {
        LedgerOp::Open { id, tenant_id, branch_id, user_id, username, opening_float, now } => {
            lemma_first_match(book, Probe::OpenFor { tenant_id, branch_id });
        },
        LedgerOp::Register { shift_id, kind, amount, note, now } => {
            lemma_first_match(book, Probe::WithId { id: shift_id });
            lemma_update_keeps_single_open(book, after);
        },
        LedgerOp::Post { tenant_id, branch_id, order_id, number, total, now } => {
            lemma_first_match(book, Probe::OpenFor { tenant_id, branch_id });
            lemma_update_keeps_single_open(book, after);
        },
        LedgerOp::Close { shift_id, cash_sales, denominations, notes, now } => {
            lemma_first_match(book, Probe::WithId { id: shift_id });
            lemma_update_keeps_single_open(book, after);
        },
    }
}

/// A book in which shifts only kept their tenant and branch, and only went
/// from open to closed, has no more open shifts than it had.
proof fn lemma_update_keeps_single_open(book: Seq<ShiftData>, after: Seq<ShiftData>)
    requires
        single_open(book),
        after.len() == book.len(),
        forall|k: int|
            0 <= k < book.len() ==> (#[trigger] after[k]).tenant_id == book[k].tenant_id
                && after[k].branch_id == book[k].branch_id && (after[k].status == ShiftStatus::OPEN
                ==> book[k].status == ShiftStatus::OPEN),
    ensures
        single_open(after),
{
}

/// However the ledger came about, no tenant and branch has two open shifts.
pub proof fn lemma_at_most_one_open_shift(ops: Seq<LedgerOp>)
    ensures
        single_open(run(Seq::empty(), ops)),
    decreases ops.len(),
{
    if ops.len() > 0 {
        lemma_at_most_one_open_shift(ops.drop_last());
        lemma_step_keeps_single_open(run(Seq::empty(), ops.drop_last()), ops.last());
    }
}

/// Whether `op` opens a shift for the tenant and branch with a float that is
/// not negative.
pub open spec fn opens_for(op: LedgerOp, tenant: Seq<char>, branch: Seq<char>) -> bool {
    op matches LedgerOp::Open { tenant_id, branch_id, opening_float, .. } && tenant_id == tenant
        && branch_id == branch && opening_float >= 0
}

/// Of any number of openings for one tenant and branch that has no open
/// shift, the one taken first succeeds and each of the others is refused
/// because a shift is already open, which is a conflict. So exactly one
/// succeeds, in whatever order they are taken.
pub proof fn lemma_exactly_one_opening_succeeds(
    book: Seq<ShiftData>,
    opens: Seq<LedgerOp>,
    tenant: Seq<char>,
    branch: Seq<char>,
)
    requires
        opens.len() >= 1,
        forall|k: int| 0 <= k < opens.len() ==> opens_for(#[trigger] opens[k], tenant, branch),
        find_open(book, tenant, branch) is None,
    ensures
        count_answers(book, opens, Ok(())) == 1,
        count_answers(book, opens, Err(PosError::ShiftAlreadyOpen)) == opens.len() - 1,
        PosError::ShiftAlreadyOpen.spec_kind() == ErrorKind::Conflict,
        find_open(run(book, opens), tenant, branch) is Some,
    decreases opens.len(),
{
    let earlier = opens.drop_last();
    if earlier.len() == 0 {
        assert(count_answers(book, earlier, Ok(())) == 0);
        assert(count_answers(book, earlier, Err(PosError::ShiftAlreadyOpen)) == 0);
        lemma_first_match(
            step(book, opens.last()).book,
            Probe::OpenFor { tenant_id: tenant, branch_id: branch },
        );
    } else {
        lemma_exactly_one_opening_succeeds(book, earlier, tenant, branch);
    }
}

/// Whether the movement `m` follows from the order `order_id`.
pub open spec fn follows_from(m: MovementData, order_id: Seq<char>) -> bool {
    m.source == MovementSource::ORDER && m.ref_order_id == Some(order_id)
}

/// How many of the movements `ms` follow from the order `order_id`.
pub open spec fn order_refs_in(ms: Seq<MovementData>, order_id: Seq<char>) -> nat
    decreases ms.len(),
{
    if ms.len() == 0 {
        0
    } else {
        order_refs_in(ms.drop_last(), order_id) + if follows_from(ms.last(), order_id) {
            1nat
        } else {
            0nat
        }
    }
}

/// How many movements in the whole of `book` follow from the order `order_id`.
pub open spec fn order_refs(book: Seq<ShiftData>, order_id: Seq<char>) -> nat
    decreases book.len(),
{
    if book.len() == 0 {
        0
    } else {
        order_refs(book.drop_last(), order_id) + order_refs_in(book.last().movements, order_id)
    }
}

/// Movements of which none follows from the order count nothing for it.
proof fn lemma_no_reference_counts_nothing(ms: Seq<MovementData>, order_id: Seq<char>)
    requires
        !refers_to_order(ms, order_id),
    ensures
        order_refs_in(ms, order_id) == 0,
    decreases ms.len(),
{
    if ms.len() > 0 {
        lemma_no_reference_counts_nothing(ms.drop_last(), order_id);
    }
}

/// A book in which the order was not posted counts nothing for it.
proof fn lemma_not_posted_counts_nothing(book: Seq<ShiftData>, order_id: Seq<char>)
    requires
        !posted(book, order_id),
    ensures
        order_refs(book, order_id) == 0,
    decreases book.len(),
{
    if book.len() > 0 {
        lemma_not_posted_counts_nothing(book.drop_last(), order_id);
        lemma_no_reference_counts_nothing(book.last().movements, order_id);
    }
}

/// Replacing one shift changes the count by what that shift's movements
/// count after, less what they counted before.
proof fn lemma_order_refs_update(book: Seq<ShiftData>, i: int, shift: ShiftData, order_id: Seq<char>)
    requires
        0 <= i < book.len(),
    ensures
        order_refs(book.update(i, shift), order_id) + order_refs_in(book[i].movements, order_id)
            == order_refs(book, order_id) + order_refs_in(shift.movements, order_id),
    decreases book.len(),
{
    let after = book.update(i, shift);
    if i == book.len() - 1 {
        assert(after.drop_last() =~= book.drop_last());
    } else {
        assert(after.drop_last() =~= book.drop_last().update(i, shift));
        lemma_order_refs_update(book.drop_last(), i, shift, order_id);
    }
}

/// A change leaves the count for an order at most one where it was at most
/// one.
pub proof fn lemma_step_posts_at_most_once(book: Seq<ShiftData>, op: LedgerOp, order_id: Seq<char>)
    requires
        order_refs(book, order_id) <= 1,
    ensures
        order_refs(step(book, op).book, order_id) <= 1,
{
    let after = step(book, op).book;
    if after != book {
        match op {
            LedgerOp::Open { id, tenant_id, branch_id, user_id, username, opening_float, now } => {
                assert(after.drop_last() =~= book);
            },
            LedgerOp::Register { shift_id, kind, amount, note, now } => {
                lemma_first_match(book, Probe::WithId { id: shift_id });
                let i = find_shift(book, shift_id)->Some_0;
                lemma_order_refs_update(book, i, after[i], order_id);
                assert(after[i].movements.drop_last() =~= book[i].movements);
            },
            LedgerOp::Post { tenant_id, branch_id, order_id: posted_order, number, total, now } => {
                lemma_first_match(book, Probe::OpenFor { tenant_id, branch_id });
                let i = find_open(book, tenant_id, branch_id)->Some_0;
                lemma_order_refs_update(book, i, after[i], order_id);
                if !posted(book, posted_order) && total > 0 && !refers_to_order(
                    book[i].movements,
                    posted_order,
                ) {
                    assert(after[i].movements.drop_last() =~= book[i].movements);
                    if posted_order == order_id {
                        lemma_not_posted_counts_nothing(book, order_id);
                    }
                }
            },
            LedgerOp::Close { shift_id, cash_sales, denominations, notes, now } => {
                lemma_first_match(book, Probe::WithId { id: shift_id });
                let i = find_shift(book, shift_id)->Some_0;
                lemma_order_refs_update(book, i, after[i], order_id);
            },
        }
    }
}

/// However the ledger came about, and however often the delivery of an order
/// was posted, at most one movement in all of it follows from that order.
pub proof fn lemma_order_posted_at_most_once(ops: Seq<LedgerOp>, order_id: Seq<char>)
    ensures
        order_refs(run(Seq::empty(), ops), order_id) <= 1,
    decreases ops.len(),
{
    if ops.len() > 0 {
        lemma_order_posted_at_most_once(ops.drop_last(), order_id);
        lemma_step_posts_at_most_once(run(Seq::empty(), ops.drop_last()), ops.last(), order_id);
    }
}

/// Posting the same delivery a second time changes nothing.
pub proof fn lemma_posting_again_changes_nothing(
    book: Seq<ShiftData>,
    tenant_id: Seq<char>,
    branch_id: Seq<char>,
    order_id: Seq<char>,
    number: i32,
    total: i64,
    now: i64,
    later: i64,
)
    ensures
        ({
            let once = step(
                book,
                LedgerOp::Post { tenant_id, branch_id, order_id, number, total, now },
            );
            once.result is Ok ==> step(
                once.book,
                LedgerOp::Post { tenant_id, branch_id, order_id, number, total, now: later },
            ) == once
        }),
{
    let probe = Probe::OpenFor { tenant_id, branch_id };
    let once = step(book, LedgerOp::Post { tenant_id, branch_id, order_id, number, total, now });
    if once.result is Ok {
        lemma_first_match(book, probe);
        let i = find_open(book, tenant_id, branch_id)->Some_0;
        let after = once.book;
        if !posted(book, order_id) {
            if total <= 0 {
                assert(after =~= book);
            } else if !refers_to_order(book[i].movements, order_id) {
                lemma_first_match_is(after, probe, i);
                let n = book[i].movements.len() as int;
                assert(after[i].movements[n].source == MovementSource::ORDER);
            }
        }
    }
}

/// A close of a shift that is closed is refused as a conflict, and the book,
/// with the figures of the first close, stays as it is.
pub proof fn lemma_second_close_is_refused(
    book: Seq<ShiftData>,
    shift_id: Seq<char>,
    cash_sales: i64,
    denominations: Seq<Denomination>,
    notes: Option<Seq<char>>,
    now: i64,
)
    requires
        find_shift(book, shift_id) matches Some(i) && book[i].status == ShiftStatus::CLOSED,
    ensures
        step(book, LedgerOp::Close { shift_id, cash_sales, denominations, notes, now }) == refused(
            book,
            PosError::ShiftClosed,
        ),
        PosError::ShiftClosed.spec_kind() == ErrorKind::Conflict,
{
}

/// No change touches a closed shift, and none removes a shift.
pub proof fn lemma_step_keeps_closed_shift(book: Seq<ShiftData>, op: LedgerOp, i: int)
    requires
        0 <= i < book.len(),
        book[i].status == ShiftStatus::CLOSED,
    ensures
        step(book, op).book.len() >= book.len(),
        step(book, op).book[i] == book[i],
{
    match op {
        LedgerOp::Open { id, tenant_id, branch_id, user_id, username, opening_float, now } => {},
        LedgerOp::Register { shift_id, kind, amount, note, now } => {
            lemma_first_match(book, Probe::WithId { id: shift_id });
        },
        LedgerOp::Post { tenant_id, branch_id, order_id, number, total, now } => {
            lemma_first_match(book, Probe::OpenFor { tenant_id, branch_id });
        },
        LedgerOp::Close { shift_id, cash_sales, denominations, notes, now } => {
            lemma_first_match(book, Probe::WithId { id: shift_id });
        },
    }
}

/// Once a shift is closed, it stays as the close left it, whatever changes
/// are made to the ledger afterwards.
pub proof fn lemma_closed_shift_never_changes(book: Seq<ShiftData>, later: Seq<LedgerOp>, i: int)
    requires
        0 <= i < book.len(),
        book[i].status == ShiftStatus::CLOSED,
    ensures
        run(book, later).len() >= book.len(),
        run(book, later)[i] == book[i],
    decreases later.len(),
{
    if later.len() > 0 {
        lemma_closed_shift_never_changes(book, later.drop_last(), i);
        lemma_step_keeps_closed_shift(run(book, later.drop_last()), later.last(), i);
    }
}

/// Every shift of the book is as the data model asks.
pub open spec fn book_ok(book: Seq<ShiftData>) -> bool {
    forall|i: int| 0 <= i < book.len() ==> shift_ok(#[trigger] book[i])
}

/// A change leaves every shift as the data model asks.
pub proof fn lemma_step_keeps_shifts_in_order(book: Seq<ShiftData>, op: LedgerOp)
    requires
        book_ok(book),
    ensures
        book_ok(step(book, op).book),
{
    match op {
        LedgerOp::Open { id, tenant_id, branch_id, user_id, username, opening_float, now } => {},
        LedgerOp::Register { shift_id, kind, amount, note, now } => {
            lemma_first_match(book, Probe::WithId { id: shift_id });
            if amount > 0 && find_shift(book, shift_id) is Some {
                let k = find_shift(book, shift_id)->Some_0;
                if book[k].status == ShiftStatus::OPEN {
                    lemma_with_movement_keeps_ok(book[k], manual_movement(kind, amount, note, now));
                }
            }
        },
        LedgerOp::Post { tenant_id, branch_id, order_id, number, total, now } => {
            lemma_first_match(book, Probe::OpenFor { tenant_id, branch_id });
            if find_open(book, tenant_id, branch_id) is Some {
                let k = find_open(book, tenant_id, branch_id)->Some_0;
                if total > 0 && !refers_to_order(book[k].movements, order_id) {
                    lemma_with_movement_keeps_ok(
                        book[k],
                        order_movement(order_id, number, total, now),
                    );
                }
            }
        },
        LedgerOp::Close { shift_id, cash_sales, denominations, notes, now } => {
            lemma_first_match(book, Probe::WithId { id: shift_id });
            if find_shift(book, shift_id) is Some {
                let k = find_shift(book, shift_id)->Some_0;
                if book[k].status == ShiftStatus::OPEN && figures_fit(
                    close_figures(book[k], cash_sales, denominations),
                ) {
                    lemma_close_keeps_ok(book[k], cash_sales, denominations, notes, now);
                }
            }
        },
    }
}

/// However the ledger came about, every shift in it is as the data model
/// asks: its float is not negative, its movements are positive, those that
/// follow from an order name it, and the figures of a closed shift add up.
pub proof fn lemma_ledger_shifts_are_in_order(ops: Seq<LedgerOp>)
    ensures
        book_ok(run(Seq::empty(), ops)),
    decreases ops.len(),
{
    if ops.len() > 0 {
        lemma_ledger_shifts_are_in_order(ops.drop_last());
        lemma_step_keeps_shifts_in_order(run(Seq::empty(), ops.drop_last()), ops.last());
    }
}

/// The shifts `shifts`, each as contracts speak of it.
pub open spec fn shifts_data(shifts: Seq<CashShift>) -> Seq<ShiftData> {
    shifts.map_values(|s: CashShift| s@)
}

/// Every cash shift, in the order in which the shifts were opened.
pub struct CashBook {
    shifts: Vec<CashShift>,
}

impl View for CashBook {
    type V = Seq<ShiftData>;

    closed spec fn view(&self) -> Seq<ShiftData> {
        shifts_data(self.shifts@)
    }
}

impl CashBook {
    /// A ledger without shifts.
    pub fn new() -> (book: CashBook)
        ensures
            book@ == Seq::<ShiftData>::empty(),
    {
        let book = CashBook { shifts: Vec::new() };
        book
    }

    /// How many shifts the ledger has.
    pub fn len(&self) -> (n: usize)
        ensures
            n == self@.len(),
    {
        self.shifts.len()
    }

    /// The place of the open shift of the tenant and branch.
    fn position_open(&self, tenant_id: &str, branch_id: &str) -> (found: Option<usize>)
        ensures
            match found {
                Some(i) => find_open(self@, tenant_id@, branch_id@) == Some(i as int) && i
                    < self.shifts@.len(),
                None => find_open(self@, tenant_id@, branch_id@) is None,
            },
    {
        let ghost probe = Probe::OpenFor { tenant_id: tenant_id@, branch_id: branch_id@ };
        let tenant = tenant_id.to_owned();
        let branch = branch_id.to_owned();
        let mut i: usize = 0;
        while i < self.shifts.len()
            invariant
                i <= self.shifts@.len(),
                tenant@ == tenant_id@,
                branch@ == branch_id@,
                probe == (Probe::OpenFor { tenant_id: tenant_id@, branch_id: branch_id@ }),
                forall|j: int| 0 <= j < i ==> !answers_probe(#[trigger] self@[j], probe),
            decreases self.shifts@.len() - i,
        {
            let shift = &self.shifts[i];
            if shift.status == ShiftStatus::OPEN && shift.tenant_id == tenant && shift.branch_id
                == branch {
                proof {
                    lemma_first_match_is(self@, probe, i as int);
                }
                return Some(i);
            }
            i += 1;
        }
        proof {
            lemma_first_match(self@, probe);
        }
        None
    }

    /// The place of the shift with the identifier `id`.
    fn position_of(&self, id: &str) -> (found: Option<usize>)
        ensures
            match found {
                Some(i) => find_shift(self@, id@) == Some(i as int) && i < self.shifts@.len(),
                None => find_shift(self@, id@) is None,
            },
    {
        let ghost probe = Probe::WithId { id: id@ };
        let wanted = id.to_owned();
        let mut i: usize = 0;
        while i < self.shifts.len()
            invariant
                i <= self.shifts@.len(),
                wanted@ == id@,
                probe == (Probe::WithId { id: id@ }),
                forall|j: int| 0 <= j < i ==> !answers_probe(#[trigger] self@[j], probe),
            decreases self.shifts@.len() - i,
        {
            let shift = &self.shifts[i];
            if shift.id == wanted {
                proof {
                    lemma_first_match_is(self@, probe, i as int);
                }
                return Some(i);
            }
            i += 1;
        }
        proof {
            lemma_first_match(self@, probe);
        }
        None
    }

    /// Whether the delivery of the order `order_id` was posted, in whatever
    /// shift.
    pub fn order_posted(&self, order_id: &str) -> (found: bool)
        ensures
            found == posted(self@, order_id@),
    {
        let mut i: usize = 0;
        while i < self.shifts.len()
            invariant
                i <= self.shifts@.len(),
                forall|j: int|
                    0 <= j < i ==> !refers_to_order((#[trigger] self@[j]).movements, order_id@),
            decreases self.shifts@.len() - i,
        {
            assert(self@[i as int] == self.shifts@[i as int]@);
            if mentions_order(&self.shifts[i].movements, order_id) {
                return true;
            }
            i += 1;
        }
        false
    }

    /// The open shift of the tenant and branch, if they have one.
    pub fn active_shift(&self, tenant_id: &str, branch_id: &str) -> (found: Option<CashShift>)
        ensures
            match found {
                Some(shift) => {
                    &&& find_open(self@, tenant_id@, branch_id@) matches Some(i)
                    &&& shift@ == self@[i]
                },
                None => find_open(self@, tenant_id@, branch_id@) is None,
            },
    {
        match self.position_open(tenant_id, branch_id) {
            Some(i) => {
                Some(self.shifts[i].duplicate())
            },
            None => None,
        }
    }

    /// The shift with the identifier `id`, if the ledger has it.
    pub fn shift(&self, id: &str) -> (found: Option<CashShift>)
        ensures
            match found {
                Some(shift) => {
                    &&& find_shift(self@, id@) matches Some(i)
                    &&& shift@ == self@[i]
                },
                None => find_shift(self@, id@) is None,
            },
    {
        match self.position_of(id) {
            Some(i) => {
                Some(self.shifts[i].duplicate())
            },
            None => None,
        }
    }

    /// Opens a shift under the identifier `id`: the change `LedgerOp::Open`.
    pub fn open_shift_with_id(
        &mut self,
        id: String,
        tenant_id: String,
        branch_id: String,
        user_id: String,
        username: String,
        opening_float: i64,
        now: i64,
    ) -> (result: Result<(), PosError>)
        ensures
            (Step { book: final(self)@, result }) == step(
                old(self)@,
                LedgerOp::Open {
                    id: id@,
                    tenant_id: tenant_id@,
                    branch_id: branch_id@,
                    user_id: user_id@,
                    username: username@,
                    opening_float,
                    now,
                },
            ),
    {
        if opening_float < 0 {
            return Err(PosError::InvalidOpeningFloat);
        }
        match self.position_open(tenant_id.as_str(), branch_id.as_str()) {
            Some(_) => Err(PosError::ShiftAlreadyOpen),
            None => {
                match CashShift::open(id, tenant_id, branch_id, user_id, username, opening_float, now) {
                    Ok(shift) => {
                        let ghost before = self@;
                        self.shifts.push(shift);
                        assert(self@ =~= before.push(shift@));
                        Ok(())
                    },
                    Err(e) => Err(e),
                }
            },
        }
    }

    /// Opens a shift for the tenant and branch on behalf of `opener`, with the
    /// float `opening_float`, under a newly made identifier, which is handed
    /// back. It is refused with `InvalidOpeningFloat` for a float below zero
    /// and with `ShiftAlreadyOpen` while the tenant and branch have an open
    /// shift; the book then stays as it is.
    pub fn open_shift(
        &mut self,
        tenant_id: String,
        branch_id: String,
        opener: &Session,
        opening_float: i64,
        now: i64,
    ) -> (result: Result<String, PosError>)
        ensures
            match result {
                Ok(id) => spec_is_object_id(id@) && step(
                    old(self)@,
                    LedgerOp::Open {
                        id: id@,
                        tenant_id: tenant_id@,
                        branch_id: branch_id@,
                        user_id: opener.user_id@,
                        username: opener.username@,
                        opening_float,
                        now,
                    },
                ) == (Step { book: final(self)@, result: Ok(()) }),
                Err(e) => final(self)@ == old(self)@ && e == (if opening_float < 0 {
                    PosError::InvalidOpeningFloat
                } else {
                    PosError::ShiftAlreadyOpen
                }) && (opening_float < 0 || find_open(old(self)@, tenant_id@, branch_id@) is Some),
            },
    {
        let id = new_object_id();
        let handed_back = id.clone();
        match self.open_shift_with_id(
            id,
            tenant_id,
            branch_id,
            opener.user_id.clone(),
            opener.username.clone(),
            opening_float,
            now,
        ) {
            Ok(()) => Ok(handed_back),
            Err(e) => Err(e),
        }
    }

    /// Replaces the shift at `i` by `shift`.
    fn put_back(&mut self, i: usize, shift: CashShift)
        requires
            i <= old(self).shifts@.len(),
        ensures
            final(self).shifts@ == old(self).shifts@.insert(i as int, shift),
    {
        self.shifts.insert(i, shift);
    }

    /// Keys a movement into the shift `shift_id`: the change
    /// `LedgerOp::Register`.
    pub fn register_movement(
        &mut self,
        shift_id: &str,
        kind: MovementKind,
        amount: i64,
        note: Option<String>,
        now: i64,
    ) -> (result: Result<(), PosError>)
        ensures
            (Step { book: final(self)@, result }) == step(
                old(self)@,
                LedgerOp::Register { shift_id: shift_id@, kind, amount, note: opt_text(note), now },
            ),
    {
        if amount <= 0 {
            return Err(PosError::InvalidAmount);
        }
        match self.position_of(shift_id) {
            None => Err(PosError::ShiftNotFound),
            Some(i) => {
                let ghost before = self.shifts@;
                let mut shift = self.shifts.remove(i);
                let result = shift.register(kind, amount, note, now);
                self.put_back(i, shift);
                proof {
                    assert(self@ =~= shifts_data(before).update(i as int, shift@));
                    if result is Err {
                        assert(self@ =~= shifts_data(before));
                    }
                }
                result
            },
        }
    }

    /// Posts the delivery of the order `order_id` to the open shift of the
    /// tenant and branch: the change `LedgerOp::Post`.
    pub fn post_order_movement(
        &mut self,
        tenant_id: &str,
        branch_id: &str,
        order_id: &str,
        number: i32,
        total: i64,
        now: i64,
    ) -> (result: Result<(), PosError>)
        ensures
            (Step { book: final(self)@, result }) == step(
                old(self)@,
                LedgerOp::Post {
                    tenant_id: tenant_id@,
                    branch_id: branch_id@,
                    order_id: order_id@,
                    number,
                    total,
                    now,
                },
            ),
    {
        match self.position_open(tenant_id, branch_id) {
            None => Err(PosError::NoOpenShift),
            Some(i) => {
                if self.order_posted(order_id) {
                    return Ok(());
                }
                let ghost before = self.shifts@;
                let mut shift = self.shifts.remove(i);
                let result = shift.post_order(order_id, number, total, now);
                self.put_back(i, shift);
                proof {
                    assert(self@ =~= shifts_data(before).update(i as int, shift@));
                    if result is Err {
                        assert(self@ =~= shifts_data(before));
                    }
                }
                result
            },
        }
    }

    /// Closes the shift `shift_id` against the count `denominations`: the
    /// change `LedgerOp::Close`. A close that succeeds hands back the closed
    /// shift, with the figures of the close.
    pub fn close_shift(
        &mut self,
        shift_id: &str,
        cash_sales: i64,
        denominations: Vec<Denomination>,
        notes: Option<String>,
        now: i64,
    ) -> (result: Result<CashShift, PosError>)
        ensures
            ({
                let made = step(
                    old(self)@,
                    LedgerOp::Close {
                        shift_id: shift_id@,
                        cash_sales,
                        denominations: denominations@,
                        notes: opt_text(notes),
                        now,
                    },
                );
                &&& final(self)@ == made.book
                &&& match result {
                    Ok(closed) => {
                        &&& made.result is Ok
                        &&& find_shift(old(self)@, shift_id@) matches Some(i)
                        &&& closed@ == final(self)@[i]
                    },
                    Err(e) => made.result == Err::<(), PosError>(e),
                }
            }),
    {
        match self.position_of(shift_id) {
            None => Err(PosError::ShiftNotFound),
            Some(i) => {
                let mut shift = self.shifts.remove(i);
                let result = shift.close(cash_sales, denominations, notes, now);
                let closed = shift.duplicate();
                self.put_back(i, shift);
                match result {
                    Ok(()) => Ok(closed),
                    Err(e) => Err(e),
                }
            },
        }
    }
}

} // verus!
