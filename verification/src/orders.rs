//! Orders: how they are numbered, priced, placed and moved from one status
//! to the next.

use vstd::prelude::*;
use crate::auth::require_session;
use crate::dates::{chrono_day, parse_day, CalendarDay};
use crate::db::{
    order_view, shows_order, DeliveryInfo, NewDeliveryInfo, NewOrder, NewOrderItem, Order,
    OrderItem, OrderStatus, OrderView, PaymentMethod, Product,
};
use crate::receipts::{
    customer_receipt, generate_customer_receipt, generate_kitchen_receipt, kitchen_receipt,
};
use crate::users::{admin_refusal, check_admin, search_text, spec_search};
use crate::error::{ErrorKind, PosError};
use crate::reports_cash::{
    fits_i64, mentions_order, order_movement, refers_to_order, with_movement, CashShift,
    ShiftData, ShiftStatus,
};
use crate::state::{clock_secs, lookup, AppState};
use crate::text::{is_object_id, new_object_id, same_text, spec_is_object_id};

verus! {

/// One page of a listing.
#[derive(Debug)]
pub struct Page<T> {
    pub data: Vec<T>,
    /// How many entries the whole listing has.
    pub total: i64,
    pub page: i64,
    pub page_size: i64,
}

/// Which part of a listing a page is.
#[derive(Debug, Clone, Copy, PartialEq, Eq, Structural)]
pub struct PageWindow {
    /// The number of the page, from one.
    pub page: i64,
    /// How many entries a page has.
    pub size: i64,
    /// How many entries come before the page.
    pub skip: u64,
}

/// The page asked for, or the first; never less than the first.
pub open spec fn spec_page_number(page: Option<i64>) -> i64 {
    match page {
        Some(p) => if p < 1 {
            1
        } else {
            p
        },
        None => 1,
    }
}

/// The page size asked for, or the usual one; never less than one nor more
/// than two hundred.
pub open spec fn spec_page_size(page_size: Option<i64>, usual: i64) -> i64 {
    let asked = match page_size {
        Some(s) => s,
        None => usual,
    };
    if asked < 1 {
        1
    } else if asked > 200 {
        200
    } else {
        asked
    }
}

/// The entries before the page: the pages before it times the page size,
/// held at the largest count that can be written.
pub open spec fn spec_page_skip(page: i64, size: i64) -> u64 {
    if (page - 1) * size <= u64::MAX {
        ((page - 1) * size) as u64
    } else {
        u64::MAX
    }
}

/// Which part of a listing is asked for. The page is at least the first, the
/// size between one and two hundred, and the entries to skip are those of the
/// pages before.
pub fn page_window(page: Option<i64>, page_size: Option<i64>, usual: i64) -> (window: PageWindow)
    ensures
        window.page == spec_page_number(page),
        window.size == spec_page_size(page_size, usual),
        window.skip == spec_page_skip(window.page, window.size),
{
    let page = match page {
        Some(p) => if p < 1 {
            1
        } else {
            p
        },
        None => 1,
    };
    let asked = match page_size {
        Some(s) => s,
        None => usual,
    };
    let size = if asked < 1 {
        1
    } else if asked > 200 {
        200
    } else {
        asked
    };
    assert(0 <= (page - 1) * size <= (page - 1) * 200) by (nonlinear_arith)
        requires
            1 <= page,
            1 <= size <= 200,
    ;
    let wide: u128 = ((page - 1) as u128) * (size as u128);
    let skip: u64 = if wide <= 0xffff_ffff_ffff_ffff {
        wide as u64
    } else {
        0xffff_ffff_ffff_ffff
    };
    PageWindow { page, size, skip }
}

/// What order numbers are counted within: a tenant, a branch and a day.
pub struct Scope {
    pub tenant_id: Seq<char>,
    pub branch_id: Seq<char>,
    pub day: CalendarDay,
}

/// The number after the highest one found, or one if none was found; refused
/// when the highest one found is the last that can be written.
pub open spec fn spec_next_order_number(last: Option<i32>) -> Result<i32, PosError> {
    match last {
        Some(n) => if n < i32::MAX {
            Ok((n + 1) as i32)
        } else {
            Err(PosError::SequenceExhausted)
        },
        None => Ok(1),
    }
}

/// The number for the next order of a day, given the highest number that the
/// day's orders have: one more, or one if the day has no order yet.
///
/// Reading the highest number and storing the order are two steps: two
/// requests that read the same highest number get the same next number. A
/// number found this way may only be used where the store refuses an order
/// whose number is taken, and the request is then made again as
/// `after_number_taken` says. `Sequencer::next_number` takes and counts in one
/// step and has no such gap.
pub fn next_order_number(last: Option<i32>) -> (next: Result<i32, PosError>)
    ensures
        next == spec_next_order_number(last),
{
    match last {
        Some(n) => {
            if n < i32::MAX {
                Ok(n + 1)
            } else {
                Err(PosError::SequenceExhausted)
            }
        },
        None => Ok(1),
    }
}

/// The last number handed out in `scope`; zero if none was.
pub open spec fn last_issued(counters: Map<Scope, i32>, scope: Scope) -> int {
    if counters.contains_key(scope) {
        counters[scope] as int
    } else {
        0
    }
}

/// The counters after a number was asked for, and the answer.
pub struct Issue {
    pub counters: Map<Scope, i32>,
    pub result: Result<i32, PosError>,
}

/// What asking for the next number in `scope` comes to: the number after the
/// last one handed out there, which the counter then holds. Once the last
/// number that can be written was handed out, the request is refused and the
/// counters stay.
pub open spec fn issue(counters: Map<Scope, i32>, scope: Scope) -> Issue {
    let last = last_issued(counters, scope);
    if last < i32::MAX {
        Issue { counters: counters.insert(scope, (last + 1) as i32), result: Ok((last + 1) as i32) }
    } else {
        Issue { counters, result: Err(PosError::SequenceExhausted) }
    }
}

/// The counters after a number was asked for in each of `scopes`, in order.
pub open spec fn issue_all(counters: Map<Scope, i32>, scopes: Seq<Scope>) -> Map<Scope, i32>
    decreases scopes.len(),
{
    if scopes.len() == 0 {
        counters
    } else {
        issue(issue_all(counters, scopes.drop_last()), scopes.last()).counters
    }
}

/// How often `scope` occurs in `scopes`.
pub open spec fn occurrences(scopes: Seq<Scope>, scope: Scope) -> nat
    decreases scopes.len(),
{
    if scopes.len() == 0 {
        0
    } else {
        occurrences(scopes.drop_last(), scope) + if scopes.last() == scope {
            1nat
        } else {
            0nat
        }
    }
}

/// After any requests, the last number handed out in a scope is the one it
/// had before plus the number of requests made in that scope, as long as
/// that number can be written.
pub proof fn lemma_counter_counts_requests(counters: Map<Scope, i32>, earlier: Seq<Scope>, scope: Scope)
    requires
        last_issued(counters, scope) + occurrences(earlier, scope) <= i32::MAX,
    ensures
        last_issued(issue_all(counters, earlier), scope) == last_issued(counters, scope) + occurrences(
            earlier,
            scope,
        ),
    decreases earlier.len(),
{
    if earlier.len() > 0 {
        lemma_counter_counts_requests(counters, earlier.drop_last(), scope);
    }
}

/// The numbers handed out in a scope are consecutive: whatever was asked
/// for before, in this scope or in others, a request gets the number after
/// the count of the earlier requests in its own scope. From a scope without
/// orders, the requests of a day so get one, two, three and so on: no number
/// twice, and none left out.
pub proof fn lemma_numbers_are_consecutive(counters: Map<Scope, i32>, earlier: Seq<Scope>, scope: Scope)
    requires
        last_issued(counters, scope) + occurrences(earlier, scope) < i32::MAX,
    ensures
        issue(issue_all(counters, earlier), scope).result == Ok::<i32, PosError>(
            (last_issued(counters, scope) + occurrences(earlier, scope) + 1) as i32,
        ),
{
    lemma_counter_counts_requests(counters, earlier, scope);
}

/// Of `n` requests in one scope that had no order yet, the request taken at
/// place `k`, counted from zero, gets the number `k + 1`: the numbers handed
/// out are exactly one to `n`.
pub proof fn lemma_first_numbers_of_a_day(scope: Scope, n: nat, k: nat)
    requires
        k < n <= i32::MAX,
    ensures
        issue(
            issue_all(Map::empty(), Seq::new(n, |i: int| scope).take(k as int)),
            scope,
        ).result == Ok::<i32, PosError>((k + 1) as i32),
{
    let earlier = Seq::new(n, |i: int| scope).take(k as int);
    lemma_occurrences_of_repeats(earlier, scope);
    lemma_numbers_are_consecutive(Map::empty(), earlier, scope);
}

/// A sequence that holds one scope only holds it as often as it is long.
proof fn lemma_occurrences_of_repeats(scopes: Seq<Scope>, scope: Scope)
    requires
        forall|i: int| 0 <= i < scopes.len() ==> #[trigger] scopes[i] == scope,
    ensures
        occurrences(scopes, scope) == scopes.len(),
    decreases scopes.len(),
{
    if scopes.len() > 0 {
        lemma_occurrences_of_repeats(scopes.drop_last(), scope);
    }
}

/// The counter of one scope.
#[derive(Debug)]
struct Counter {
    tenant_id: String,
    branch_id: String,
    day: CalendarDay,
    last: i32,
}

impl Counter {
    spec fn scope(self) -> Scope {
        Scope { tenant_id: self.tenant_id@, branch_id: self.branch_id@, day: self.day }
    }
}

/// Hands out the numbers of the orders: for each tenant, branch and day one
/// counter, from which a number is taken and counted in one step.
#[derive(Debug)]
pub struct Sequencer {
    counters: Vec<Counter>,
}

/// The place of the first counter of `scope`.
spec fn first_of(counters: Seq<Counter>, scope: Scope) -> Option<int>
    decreases counters.len(),
{
    if counters.len() == 0 {
        None
    } else {
        match first_of(counters.drop_last(), scope) {
            Some(i) => Some(i),
            None => if counters.last().scope() == scope {
                Some(counters.len() - 1)
            } else {
                None
            },
        }
    }
}

impl View for Sequencer {
    type V = Map<Scope, i32>;

    closed spec fn view(&self) -> Map<Scope, i32> {
        Map::new(
            |scope: Scope| first_of(self.counters@, scope) is Some,
            |scope: Scope| self.counters@[first_of(self.counters@, scope)->Some_0].last,
        )
    }
}

/// What `first_of` finds is the first counter of the scope, and it finds
/// nothing only where the scope has no counter.
proof fn lemma_first_of(counters: Seq<Counter>, scope: Scope)
    ensures
        match first_of(counters, scope) {
            Some(i) => {
                &&& 0 <= i < counters.len()
                &&& counters[i].scope() == scope
                &&& forall|j: int| 0 <= j < i ==> (#[trigger] counters[j]).scope() != scope
            },
            None => forall|j: int| 0 <= j < counters.len() ==> (#[trigger] counters[j]).scope() != scope,
        },
    decreases counters.len(),
{
    if counters.len() > 0 {
        lemma_first_of(counters.drop_last(), scope);
        match first_of(counters.drop_last(), scope) {
            Some(i) => {
                assert forall|j: int| 0 <= j < i implies (#[trigger] counters[j]).scope() != scope by {
                    assert(counters.drop_last()[j] == counters[j]);
                }
            },
            None => {
                assert forall|j: int| 0 <= j < counters.len() - 1 implies (
                #[trigger] counters[j]).scope() != scope by {
                    assert(counters.drop_last()[j] == counters[j]);
                }
            },
        }
    }
}

/// The first counter of the scope is what `first_of` finds.
proof fn lemma_first_of_is(counters: Seq<Counter>, scope: Scope, i: int)
    requires
        0 <= i < counters.len(),
        counters[i].scope() == scope,
        forall|j: int| 0 <= j < i ==> (#[trigger] counters[j]).scope() != scope,
    ensures
        first_of(counters, scope) == Some(i),
{
    lemma_first_of(counters, scope);
}

/// Counters that have the same scopes in the same places are found in the
/// same places.
proof fn lemma_same_scopes(before: Seq<Counter>, after: Seq<Counter>, scope: Scope)
    requires
        before.len() == after.len(),
        forall|k: int| 0 <= k < after.len() ==> (#[trigger] after[k]).scope() == before[k].scope(),
    ensures
        first_of(after, scope) == first_of(before, scope),
{
    lemma_first_of(before, scope);
    lemma_first_of(after, scope);
    match first_of(before, scope) {
        Some(i) => {
            lemma_first_of_is(after, scope, i);
        },
        None => {},
    }
}

impl Sequencer {
    /// A sequencer that has handed out no number.
    pub fn new() -> (sequencer: Sequencer)
        ensures
            sequencer@ == Map::<Scope, i32>::empty(),
    {
        let sequencer = Sequencer { counters: Vec::new() };
        sequencer
    }

    /// The place of the first counter of the scope, if it has one.
    fn position(&self, tenant_id: &str, branch_id: &str, day: CalendarDay) -> (found: Option<usize>)
        ensures
            match found {
                Some(i) => i < self.counters@.len() && first_of(
                    self.counters@,
                    Scope { tenant_id: tenant_id@, branch_id: branch_id@, day },
                ) == Some(i as int),
                None => first_of(
                    self.counters@,
                    Scope { tenant_id: tenant_id@, branch_id: branch_id@, day },
                ) is None,
            },
    {
        let ghost scope = Scope { tenant_id: tenant_id@, branch_id: branch_id@, day };
        let tenant = tenant_id.to_owned();
        let branch = branch_id.to_owned();
        let mut i: usize = 0;
        while i < self.counters.len()
            invariant
                i <= self.counters@.len(),
                tenant@ == tenant_id@,
                branch@ == branch_id@,
                scope == (Scope { tenant_id: tenant_id@, branch_id: branch_id@, day }),
                forall|k: int| 0 <= k < i ==> (#[trigger] self.counters@[k]).scope() != scope,
            decreases self.counters@.len() - i,
        {
            let c = &self.counters[i];
            if c.tenant_id == tenant && c.branch_id == branch && c.day.year == day.year
                && c.day.month == day.month && c.day.day == day.day {
                proof {
                    lemma_first_of_is(self.counters@, scope, i as int);
                }
                return Some(i);
            }
            i += 1;
        }
        proof {
            lemma_first_of(self.counters@, scope);
        }
        None
    }

    /// The last number handed out for the tenant, branch and day; zero if
    /// none was.
    pub fn last_number(&self, tenant_id: &str, branch_id: &str, day: CalendarDay) -> (last: i32)
        ensures
            last == last_issued(self@, Scope { tenant_id: tenant_id@, branch_id: branch_id@, day }),
    {
        match self.position(tenant_id, branch_id, day) {
            Some(i) => self.counters[i].last,
            None => 0,
        }
    }

    /// Takes the next number for the tenant, branch and day: one for the
    /// first order of a day, and for each further order the number after the
    /// one before. Taking and counting are one step, so no two requests get
    /// the same number. Once the last number that can be written was taken,
    /// the request is refused with `SequenceExhausted`.
    pub fn next_number(&mut self, tenant_id: &str, branch_id: &str, day: CalendarDay) -> (result:
        Result<i32, PosError>)
        ensures
            (Issue { counters: final(self)@, result }) == issue(
                old(self)@,
                Scope { tenant_id: tenant_id@, branch_id: branch_id@, day },
            ),
    {
        let ghost scope = Scope { tenant_id: tenant_id@, branch_id: branch_id@, day };
        let ghost before = self.counters@;
        match self.position(tenant_id, branch_id, day) {
            Some(i) => {
                let last = self.counters[i].last;
                if last == i32::MAX {
                    return Err(PosError::SequenceExhausted);
                }
                let counter = self.counters.remove(i);
                let next = last + 1;
                self.counters.insert(
                    i,
                    Counter {
                        tenant_id: counter.tenant_id,
                        branch_id: counter.branch_id,
                        day: counter.day,
                        last: next,
                    },
                );
                proof {
                    let after = self.counters@;
                    assert forall|s: Scope| first_of(after, s) == first_of(before, s) by {
                        lemma_same_scopes(before, after, s);
                    }
                    assert forall|s: Scope| first_of(before, s) is Some implies {
                        let k = first_of(before, s)->Some_0;
                        0 <= k < before.len() && (k == i <==> s == scope)
                    } by {
                        lemma_first_of(before, s);
                        lemma_first_of(before, scope);
                    }
                    assert(self@ =~= old(self)@.insert(scope, next));
                }
                Ok(next)
            },
            None => {
                self.counters.push(
                    Counter {
                        tenant_id: tenant_id.to_owned(),
                        branch_id: branch_id.to_owned(),
                        day,
                        last: 1,
                    },
                );
                proof {
                    let after = self.counters@;
                    assert(after.drop_last() =~= before);
                    assert forall|s: Scope| first_of(before, s) is Some implies after[first_of(
                        before,
                        s,
                    )->Some_0] == before[first_of(before, s)->Some_0] by {
                        lemma_first_of(before, s);
                    }
                    assert(self@ =~= old(self)@.insert(scope, 1));
                }
                Ok(1)
            },
        }
    }
}

/// The status that a name stands for: one of `PENDING`, `IN_PROGRESS`,
/// `READY`, `DELIVERED` and `CANCELLED`, written exactly so. No other text
/// names a status.
pub open spec fn spec_parse_status(name: Seq<char>) -> Option<OrderStatus> {
    if name == "PENDING"@ {
        Some(OrderStatus::PENDING)
    } else if name == "IN_PROGRESS"@ {
        Some(OrderStatus::IN_PROGRESS)
    } else if name == "READY"@ {
        Some(OrderStatus::READY)
    } else if name == "DELIVERED"@ {
        Some(OrderStatus::DELIVERED)
    } else if name == "CANCELLED"@ {
        Some(OrderStatus::CANCELLED)
    } else {
        None
    }
}

/// The status that `name` stands for, if it is the name of one.
pub fn parse_status(name: &str) -> (status: Option<OrderStatus>)
    ensures
        status == spec_parse_status(name@),
{
    if same_text(name, "PENDING") {
        Some(OrderStatus::PENDING)
    } else if same_text(name, "IN_PROGRESS") {
        Some(OrderStatus::IN_PROGRESS)
    } else if same_text(name, "READY") {
        Some(OrderStatus::READY)
    } else if same_text(name, "DELIVERED") {
        Some(OrderStatus::DELIVERED)
    } else if same_text(name, "CANCELLED") {
        Some(OrderStatus::CANCELLED)
    } else {
        None
    }
}

/// The lines of an order with their prices, and what they come to.
pub struct Priced {
    pub lines: Seq<OrderItem>,
    pub total: int,
}

/// What the store returned for the product of the line at `i`.
pub open spec fn found_product(products: Seq<Option<Product>>, i: int) -> Option<Product> {
    if 0 <= i < products.len() {
        products[i]
    } else {
        None
    }
}

/// The lines `items` priced with the products that the store returned for
/// them, line by line in order. The first line that cannot be priced decides
/// the refusal: `InvalidId` if its product is not written as an identifier,
/// `ProductNotFound` if the store has no such product, `AmountOutOfRange` if
/// its amount, or the total up to it, cannot be held in sixty-four bits.
pub open spec fn price_lines(items: Seq<NewOrderItem>, products: Seq<Option<Product>>) -> Result<
    Priced,
    PosError,
>
    decreases items.len(),
{
    if items.len() == 0 {
        Ok(Priced { lines: Seq::empty(), total: 0 })
    } else {
        match price_lines(items.drop_last(), products) {
            Err(e) => Err(e),
            Ok(before) => {
                let item = items.last();
                let found = found_product(products, items.len() - 1);
                if !spec_is_object_id(item.product_id@) {
                    Err(PosError::InvalidId)
                } else if found is None {
                    Err(PosError::ProductNotFound)
                } else {
                    let product = found->Some_0;
                    let line = product.price * item.quantity;
                    if !fits_i64(line) || !fits_i64(before.total + line) {
                        Err(PosError::AmountOutOfRange)
                    } else {
                        Ok(
                            Priced {
                                lines: before.lines.push(
                                    OrderItem {
                                        product_id: item.product_id,
                                        name: product.name,
                                        price: product.price,
                                        quantity: item.quantity,
                                    },
                                ),
                                total: before.total + line,
                            },
                        )
                    }
                }
            },
        }
    }
}

/// The cash handed over for an order, and the change given.
#[derive(Debug, Clone, Copy, PartialEq, Eq, Structural)]
pub struct CashTaken {
    pub amount: Option<i64>,
    pub change: Option<i64>,
}

/// What is taken in cash for an order of `total`. An order paid in cash
/// takes the amount handed over, or nothing if none is named, and gives the
/// rest as change; less than the total is refused. Any other order takes no
/// cash.
pub open spec fn spec_cash_taken(method: PaymentMethod, cash_amount: Option<i64>, total: i64) -> Result<
    CashTaken,
    PosError,
> {
    if method == PaymentMethod::CASH {
        let amount = match cash_amount {
            Some(a) => a,
            None => 0,
        };
        if amount < total {
            Err(PosError::CashBelowTotal)
        } else if !fits_i64(amount - total) {
            Err(PosError::AmountOutOfRange)
        } else {
            Ok(CashTaken { amount: Some(amount), change: Some((amount - total) as i64) })
        }
    } else {
        Ok(CashTaken { amount: None, change: None })
    }
}

/// What is taken in cash for an order of `total`.
pub fn cash_taken(method: PaymentMethod, cash_amount: Option<i64>, total: i64) -> (taken: Result<
    CashTaken,
    PosError,
>)
    ensures
        taken == spec_cash_taken(method, cash_amount, total),
{
    if method == PaymentMethod::CASH {
        let amount = match cash_amount {
            Some(a) => a,
            None => 0,
        };
        if amount < total {
            return Err(PosError::CashBelowTotal);
        }
        match amount.checked_sub(total) {
            Some(change) => Ok(CashTaken { amount: Some(amount), change: Some(change) }),
            None => Err(PosError::AmountOutOfRange),
        }
    } else {
        Ok(CashTaken { amount: None, change: None })
    }
}

/// An order that is priced and not yet placed.
#[derive(Debug)]
pub struct Quote {
    pub items: Vec<OrderItem>,
    pub total: i64,
    pub cash_amount: Option<i64>,
    pub cash_change: Option<i64>,
}

/// Whether `quote` is what `priced` and `cash` say.
pub open spec fn quotes(quote: Quote, priced: Priced, cash: CashTaken) -> bool {
    &&& quote.items@ == priced.lines
    &&& quote.total == priced.total
    &&& quote.cash_amount == cash.amount
    &&& quote.cash_change == cash.change
}

/// What pricing the order `payload` comes to: its lines and total, and the
/// cash taken for it, or the refusal of the first thing that is wrong.
pub open spec fn spec_price_order(payload: NewOrder, products: Seq<Option<Product>>) -> Result<
    (Priced, CashTaken),
    PosError,
> {
    match price_lines(payload.items@, products) {
        Err(e) => Err(e),
        Ok(priced) => match spec_cash_taken(
            payload.payment_method,
            payload.cash_amount,
            priced.total as i64,
        ) {
            Err(e) => Err(e),
            Ok(cash) => Ok((priced, cash)),
        },
    }
}

/// Whether `answer` says what `expected` says.
pub open spec fn quote_says(answer: Result<Quote, PosError>, expected: Result<(Priced, CashTaken), PosError>) -> bool {
    match expected {
        Ok((priced, cash)) => answer matches Ok(quote) && quotes(quote, priced, cash),
        Err(e) => answer == Err::<Quote, PosError>(e),
    }
}

/// Prices the order `payload`. `products` holds, for each line in order, what
/// the store returned for the line's product. Each line takes the name and
/// the price of its product; the total is the sum of price times quantity.
pub fn price_order(payload: &NewOrder, products: &Vec<Option<Product>>) -> (answer: Result<
    Quote,
    PosError,
>)
    ensures
        quote_says(answer, spec_price_order(*payload, products@)),
{
    let mut items: Vec<OrderItem> = Vec::new();
    let mut total: i64 = 0;
    let mut i: usize = 0;
    while i < payload.items.len()
        invariant
            i <= payload.items@.len(),
            price_lines(payload.items@.take(i as int), products@) == Ok::<Priced, PosError>(
                Priced { lines: items@, total: total as int },
            ),
        decreases payload.items@.len() - i,
    {
        let item = &payload.items[i];
        proof {
            assert(payload.items@.take(i + 1).drop_last() =~= payload.items@.take(i as int));
            lemma_refusal_stays(payload.items@, products@, i + 1);
        }
        if !is_object_id(item.product_id.as_str()) {
            return Err(PosError::InvalidId);
        }
        if i >= products.len() {
            return Err(PosError::ProductNotFound);
        }
        let product = match &products[i] {
            Some(p) => p,
            None => {
                return Err(PosError::ProductNotFound);
            },
        };
        assert(-0x8000_0000_0000_0000 * 0x8000_0000 <= product.price * item.quantity
            <= 0x8000_0000_0000_0000 * 0x8000_0000) by (nonlinear_arith)
            requires
                -0x8000_0000_0000_0000 <= product.price < 0x8000_0000_0000_0000,
                -0x8000_0000 <= item.quantity < 0x8000_0000,
        ;
        let line: i128 = (product.price as i128) * (item.quantity as i128);
        if line < -0x8000_0000_0000_0000 || line > 0x7fff_ffff_ffff_ffff {
            return Err(PosError::AmountOutOfRange);
        }
        let sum: i128 = total as i128 + line;
        if sum < -0x8000_0000_0000_0000 || sum > 0x7fff_ffff_ffff_ffff {
            return Err(PosError::AmountOutOfRange);
        }
        total = sum as i64;
        items.push(
            OrderItem {
                product_id: item.product_id.clone(),
                name: product.name.clone(),
                price: product.price,
                quantity: item.quantity,
            },
        );
        i += 1;
    }
    proof {
        assert(payload.items@.take(payload.items@.len() as int) =~= payload.items@);
    }
    match cash_taken(payload.payment_method, payload.cash_amount, total) {
        Ok(cash) => Ok(
            Quote { items, total, cash_amount: cash.amount, cash_change: cash.change },
        ),
        Err(e) => Err(e),
    }
}

/// Once the first lines are refused, so are all the lines, for the same
/// reason.
proof fn lemma_refusal_stays(items: Seq<NewOrderItem>, products: Seq<Option<Product>>, k: int)
    requires
        0 <= k <= items.len(),
    ensures
        price_lines(items.take(k), products) is Err ==> price_lines(items, products) == price_lines(
            items.take(k),
            products,
        ),
    decreases items.len() - k,
{
    if k < items.len() {
        assert(items.take(k + 1).drop_last() =~= items.take(k));
        lemma_refusal_stays(items, products, k + 1);
    } else {
        assert(items.take(k) =~= items);
    }
}

/// The delivery asked for, as it is stored.
pub open spec fn spec_delivery(asked: Option<NewDeliveryInfo>) -> Option<DeliveryInfo> {
    match asked {
        Some(d) => Some(DeliveryInfo { company: d.company, address: d.address, phone: d.phone }),
        None => None,
    }
}

/// Whether `order` places `payload` as priced: it is pending, created and
/// last changed at `now`, numbered `number`, has the priced lines and their
/// total and the cash taken, and takes everything else from the request.
pub open spec fn places(
    order: Order,
    payload: NewOrder,
    priced: Priced,
    cash: CashTaken,
    number: i32,
    now: i64,
) -> bool {
    &&& order.tenant_id == payload.tenant_id
    &&& order.branch_id == payload.branch_id
    &&& order.order_number == number
    &&& order.items@ == priced.lines
    &&& order.total == priced.total
    &&& order.payment_method == payload.payment_method
    &&& order.cash_amount == cash.amount
    &&& order.cash_change == cash.change
    &&& order.delivery == spec_delivery(payload.delivery)
    &&& order.comments == payload.comments
    &&& order.status == OrderStatus::PENDING
    &&& order.created_at == now
    &&& order.updated_at == now
}

/// Whether `order` is the order that placing `payload` makes of `quote`:
/// it is pending, created and last changed at `now`, numbered `number` and
/// named `id`, and takes everything else from the request and the quote.
pub open spec fn built(order: Order, payload: NewOrder, quote: Quote, number: i32, id: String, now: i64) -> bool {
    order == (Order {
        id,
        tenant_id: payload.tenant_id,
        branch_id: payload.branch_id,
        order_number: number,
        items: quote.items,
        total: quote.total,
        payment_method: payload.payment_method,
        cash_amount: quote.cash_amount,
        cash_change: quote.cash_change,
        delivery: spec_delivery(payload.delivery),
        comments: payload.comments,
        status: OrderStatus::PENDING,
        created_at: now,
        updated_at: now,
    })
}

/// The order that placing `payload` makes of `quote` under the number
/// `number` and the identifier `id` at `now`.
pub fn build_order(payload: NewOrder, quote: Quote, number: i32, id: String, now: i64) -> (order:
    Order)
    ensures
        built(order, payload, quote, number, id, now),
{
    let delivery = match payload.delivery {
        Some(d) => Some(DeliveryInfo { company: d.company, address: d.address, phone: d.phone }),
        None => None,
    };
    Order {
        id,
        tenant_id: payload.tenant_id,
        branch_id: payload.branch_id,
        order_number: number,
        items: quote.items,
        total: quote.total,
        payment_method: payload.payment_method,
        cash_amount: quote.cash_amount,
        cash_change: quote.cash_change,
        delivery,
        comments: payload.comments,
        status: OrderStatus::PENDING,
        created_at: now,
        updated_at: now,
    }
}

/// The order that placing `payload` makes of `quote` under the number
/// `number` at `now`, under a newly made identifier.
pub fn place_order(payload: NewOrder, quote: Quote, number: i32, now: i64) -> (order: Order)
    ensures
        spec_is_object_id(order.id@),
        built(order, payload, quote, number, order.id, now),
{
    build_order(payload, quote, number, new_object_id(), now)
}

/// Why placing an order is refused before a number is taken for it, if it
/// is: no live session, no open shift, or an order that cannot be priced.
pub open spec fn order_refusal(
    sessions: Map<Seq<char>, crate::state::SessionData>,
    session_id: Seq<char>,
    now: i64,
    payload: NewOrder,
    shift_open: bool,
    products: Seq<Option<Product>>,
) -> Option<PosError> {
    if lookup(sessions, session_id, clock_secs(now)) is None {
        Some(PosError::SessionInvalid)
    } else if !shift_open {
        Some(PosError::NoOpenShift)
    } else {
        match spec_price_order(payload, products) {
            Err(e) => Some(e),
            Ok(_) => None,
        }
    }
}

/// Checks the order `payload` at `now`, in milliseconds since the epoch, and
/// prices it. `shift_open` says whether the tenant and branch of the order
/// have an open shift, and `products` holds, for each line in order, what the
/// store returned for the line's product. The order is refused, in this
/// order: without a live session, without an open shift, and if it cannot be
/// priced.
pub fn check_order(
    state: &AppState,
    session_id: &str,
    now: i64,
    payload: &NewOrder,
    shift_open: bool,
    products: &Vec<Option<Product>>,
) -> (result: Result<Quote, PosError>)
    ensures
        match order_refusal(state.sessions@, session_id@, now, *payload, shift_open, products@) {
            Some(e) => result == Err::<Quote, PosError>(e),
            None => quote_says(result, spec_price_order(*payload, products@)),
        },
{
    match require_session(state, session_id, clock_secs(now)) {
        Ok(_) => {},
        Err(e) => {
            return Err(e);
        },
    }
    if !shift_open {
        return Err(PosError::NoOpenShift);
    }
    price_order(payload, products)
}

/// Places the order `payload` at `now`, in milliseconds since the epoch.
///
/// The order is checked and priced as `check_order` does. Only then is its
/// number taken from `sequencer`, for the order's tenant and branch and the
/// day `day`, so that a refused order uses up no number. The order gets a
/// newly made identifier.
pub fn create_order(
    state: &AppState,
    session_id: &str,
    now: i64,
    payload: NewOrder,
    shift_open: bool,
    products: &Vec<Option<Product>>,
    sequencer: &mut Sequencer,
    day: CalendarDay,
) -> (result: Result<Order, PosError>)
    ensures
        ({
            let scope = Scope { tenant_id: payload.tenant_id@, branch_id: payload.branch_id@, day };
            let refusal = order_refusal(
                state.sessions@,
                session_id@,
                now,
                payload,
                shift_open,
                products@,
            );
            let issued = issue(old(sequencer)@, scope);
            match result {
                Ok(order) => {
                    &&& refusal is None
                    &&& issued.result == Ok::<i32, PosError>(order.order_number)
                    &&& final(sequencer)@ == issued.counters
                    &&& spec_is_object_id(order.id@)
                    &&& spec_price_order(payload, products@) matches Ok((priced, cash))
                    &&& places(order, payload, priced, cash, order.order_number, now)
                },
                Err(e) => {
                    &&& final(sequencer)@ == old(sequencer)@
                    &&& match refusal {
                        Some(why) => e == why,
                        None => issued.result == Err::<i32, PosError>(e),
                    }
                },
            }
        }),
{
    let quote = match check_order(state, session_id, now, &payload, shift_open, products) {
        Ok(quote) => quote,
        Err(e) => {
            return Err(e);
        },
    };
    let number = match sequencer.next_number(
        payload.tenant_id.as_str(),
        payload.branch_id.as_str(),
        day,
    ) {
        Ok(number) => number,
        Err(e) => {
            return Err(e);
        },
    };
    Ok(place_order(payload, quote, number, now))
}

/// What a change of status does.
pub enum StatusDecision {
    /// The change is refused.
    Refuse(PosError),
    /// The order takes the status; nothing is posted.
    Change(OrderStatus),
    /// The order is delivered, and its total is posted to the open shift.
    Deliver,
}

/// Whether `shift` is the open shift of the tenant and branch of `order`.
pub open spec fn open_shift_of(shift: Option<ShiftData>, order: Order) -> bool {
    shift matches Some(s) && s.status == ShiftStatus::OPEN && s.tenant_id == order.tenant_id@
        && s.branch_id == order.branch_id@
}

/// What the change of the order `order_id` to the status named `status`
/// does.
///
/// It is refused, in this order: without a live session; if `order_id` is
/// not written as an identifier; if the store has no such order; if `status`
/// names no status; and, for a delivery, if the order's tenant and branch
/// have no open shift. A delivery of an order that was not delivered before
/// posts the order's total to the open shift, whatever the way of paying,
/// unless the order was posted before or its total is not positive. Every
/// other change only sets the status.
pub open spec fn status_decision(
    session_live: bool,
    order_id: Seq<char>,
    status: Seq<char>,
    current: Option<Order>,
    open_shift: Option<ShiftData>,
    posted_before: bool,
) -> StatusDecision {
    if !session_live {
        StatusDecision::Refuse(PosError::SessionInvalid)
    } else if !spec_is_object_id(order_id) {
        StatusDecision::Refuse(PosError::InvalidId)
    } else if current is None {
        StatusDecision::Refuse(PosError::OrderNotFound)
    } else if spec_parse_status(status) is None {
        StatusDecision::Refuse(PosError::InvalidStatus)
    } else {
        let order = current->Some_0;
        let wanted = spec_parse_status(status)->Some_0;
        if wanted != OrderStatus::DELIVERED {
            StatusDecision::Change(wanted)
        } else if !open_shift_of(open_shift, order) {
            StatusDecision::Refuse(PosError::NoOpenShift)
        } else if order.status != OrderStatus::DELIVERED && !posted_before && order.total > 0
            && !refers_to_order(open_shift->Some_0.movements, order.id@) {
            StatusDecision::Deliver
        } else {
            StatusDecision::Change(wanted)
        }
    }
}

/// What a change of status hands back: the order as it is from now on, and
/// the shift as it is from now on if the order's total was posted to it.
#[derive(Debug)]
pub struct Dispatch {
    pub order: Order,
    pub shift: Option<CashShift>,
}

/// Whether `result` is what `decision` asks for: the refusal; or the order
/// with the new status, last changed at `now`, and no shift; or the order
/// delivered and the open shift with the order's movement added.
pub open spec fn carries_out(
    result: Result<Dispatch, PosError>,
    decision: StatusDecision,
    current: Option<Order>,
    open_shift: Option<ShiftData>,
    now: i64,
) -> bool {
    match decision {
        StatusDecision::Refuse(e) => result == Err::<Dispatch, PosError>(e),
        StatusDecision::Change(status) => {
            &&& result matches Ok(done)
            &&& done.order == (Order { status, updated_at: now, ..current->Some_0 })
            &&& done.shift is None
        },
        StatusDecision::Deliver => {
            &&& result matches Ok(done)
            &&& done.order == (Order {
                status: OrderStatus::DELIVERED,
                updated_at: now,
                ..current->Some_0
            })
            &&& done.shift matches Some(shift)
            &&& shift@ == with_movement(
                open_shift->Some_0,
                order_movement(
                    current->Some_0.id@,
                    current->Some_0.order_number,
                    current->Some_0.total,
                    now,
                ),
            )
        },
    }
}

/// Changes the status of the order `order_id` to the one that `status` names,
/// at `now`, in milliseconds since the epoch.
///
/// `current` is what the store returned for the order, `open_shift` what it
/// returned for the open shift of the order's tenant and branch, and
/// `posted_before` whether any shift already has a movement that follows
/// from the order. What is done is what `status_decision` says. A refusal
/// hands back neither an order nor a shift: the order keeps its status and
/// no movement is made.
pub fn update_order_status(
    state: &AppState,
    session_id: &str,
    now: i64,
    order_id: &str,
    status: &str,
    current: Option<Order>,
    open_shift: Option<CashShift>,
    posted_before: bool,
) -> (result: Result<Dispatch, PosError>)
    ensures
        carries_out(
            result,
            status_decision(
                lookup(state.sessions@, session_id@, clock_secs(now)) is Some,
                order_id@,
                status@,
                current,
                match open_shift {
                    Some(s) => Some(s@),
                    None => None,
                },
                posted_before,
            ),
            current,
            match open_shift {
                Some(s) => Some(s@),
                None => None,
            },
            now,
        ),
{
    match require_session(state, session_id, clock_secs(now)) {
        Ok(_) => {},
        Err(e) => {
            return Err(e);
        },
    }
    if !is_object_id(order_id) {
        return Err(PosError::InvalidId);
    }
    let order = match current {
        Some(order) => order,
        None => {
            return Err(PosError::OrderNotFound);
        },
    };
    let wanted = match parse_status(status) {
        Some(wanted) => wanted,
        None => {
            return Err(PosError::InvalidStatus);
        },
    };
    if wanted != OrderStatus::DELIVERED {
        return Ok(set_status(order, wanted, now, None));
    }
    let mut shift = match open_shift {
        Some(shift) => shift,
        None => {
            return Err(PosError::NoOpenShift);
        },
    };
    if shift.status != ShiftStatus::OPEN || !same_text(
        shift.tenant_id.as_str(),
        order.tenant_id.as_str(),
    ) || !same_text(shift.branch_id.as_str(), order.branch_id.as_str()) {
        return Err(PosError::NoOpenShift);
    }
    if order.status != OrderStatus::DELIVERED && !posted_before && order.total > 0
        && !mentions_order(&shift.movements, order.id.as_str()) {
        match shift.post_order(order.id.as_str(), order.order_number, order.total, now) {
            Ok(()) => {},
            Err(e) => {
                return Err(e);
            },
        }
        Ok(set_status(order, wanted, now, Some(shift)))
    } else {
        Ok(set_status(order, wanted, now, None))
    }
}

/// The order with the status `status`, last changed at `now`, together with
/// `shift`.
fn set_status(order: Order, status: OrderStatus, now: i64, shift: Option<CashShift>) -> (done:
    Dispatch)
    ensures
        done.order == (Order { status, updated_at: now, ..order }),
        done.shift == shift,
{
    Dispatch {
        order: Order {
            id: order.id,
            tenant_id: order.tenant_id,
            branch_id: order.branch_id,
            order_number: order.order_number,
            items: order.items,
            total: order.total,
            payment_method: order.payment_method,
            cash_amount: order.cash_amount,
            cash_change: order.cash_change,
            delivery: order.delivery,
            comments: order.comments,
            status,
            created_at: order.created_at,
            updated_at: now,
        },
        shift,
    }
}

/// What posting the movement of a delivered order comes to once the store
/// has answered. The store adds the movement only to a shift that is still
/// open and does not have the order's movement, and `matched` says whether
/// it found the shift so. If it did not and the shift is `still_open`, the
/// shift has the movement already: nothing is added and the delivery goes
/// on. If it did not and the shift is not open any more, the delivery is
/// refused with `NoOpenShift` and the order keeps its status. A store that
/// `failed` gives `Store`, whatever else is said.
pub fn after_posting_stored(matched: bool, failed: bool, still_open: bool) -> (result: Result<
    (),
    PosError,
>)
    ensures
        result == (if failed {
            Err::<(), PosError>(PosError::Store)
        } else if matched || still_open {
            Ok::<(), PosError>(())
        } else {
            Err::<(), PosError>(PosError::NoOpenShift)
        }),
{
    if failed {
        Err(PosError::Store)
    } else if matched || still_open {
        Ok(())
    } else {
        Err(PosError::NoOpenShift)
    }
}

/// What is done about an order that the store refused to take because its
/// number was taken in the meantime.
#[derive(Debug, Clone, Copy, PartialEq, Eq, Structural)]
pub enum Numbering {
    /// The number is looked up and the order offered again.
    Retry,
    /// The order is given up with the failure.
    GiveUp(PosError),
}

/// How often an order is offered to the store before it is given up.
pub open spec fn spec_numbering_attempts() -> u32 {
    5
}

/// How often an order is offered to the store before it is given up.
#[verifier::when_used_as_spec(spec_numbering_attempts)]
pub fn numbering_attempts() -> (attempts: u32)
    ensures
        attempts == spec_numbering_attempts(),
{
    5
}

/// What is done after the store refused an order for the `attempt`-th time
/// because its number was taken: it is offered again while fewer than the
/// allowed attempts were made, and given up as a conflict after that.
pub fn after_number_taken(attempt: u32) -> (next: Numbering)
    ensures
        next == (if attempt < spec_numbering_attempts() {
            Numbering::Retry
        } else {
            Numbering::GiveUp(PosError::SequenceExhausted)
        }),
        PosError::SequenceExhausted.spec_kind() == ErrorKind::Conflict,
{
    if attempt < numbering_attempts() {
        Numbering::Retry
    } else {
        Numbering::GiveUp(PosError::SequenceExhausted)
    }
}

/// What to list of the orders of a tenant and branch.
#[derive(Debug)]
pub struct OrderQuery {
    pub tenant_id: String,
    pub branch_id: String,
    /// The name of the status that the orders must have.
    pub status: Option<String>,
    /// The number that the orders must have.
    pub order_number: Option<i64>,
    /// The day on which the orders must have been created.
    pub created_on: Option<CalendarDay>,
    pub window: PageWindow,
}

/// The day that `text` names, if there is a text and it names one.
pub open spec fn spec_day_asked(text: Option<String>) -> Option<CalendarDay> {
    match text {
        Some(t) => chrono_day(t@),
        None => None,
    }
}

/// What to ask the store for to list orders. Any live session may list
/// them. An empty status is no status, a day that is not written as year,
/// month and day is no day, and a page has three orders unless another size
/// is asked for.
pub fn list_orders(
    state: &AppState,
    session_id: &str,
    now: i64,
    tenant_id: String,
    branch_id: String,
    status: Option<String>,
    page: Option<i64>,
    page_size: Option<i64>,
    order_number: Option<i64>,
    created_date: Option<String>,
) -> (result: Result<OrderQuery, PosError>)
    ensures
        result == (if lookup(state.sessions@, session_id@, clock_secs(now)) is None {
            Err::<OrderQuery, PosError>(PosError::SessionInvalid)
        } else {
            Ok::<OrderQuery, PosError>(
                OrderQuery {
                    tenant_id,
                    branch_id,
                    status: spec_search(status),
                    order_number,
                    created_on: spec_day_asked(created_date),
                    window: PageWindow {
                        page: spec_page_number(page),
                        size: spec_page_size(page_size, 3),
                        skip: spec_page_skip(spec_page_number(page), spec_page_size(page_size, 3)),
                    },
                },
            )
        }),
{
    match require_session(state, session_id, clock_secs(now)) {
        Ok(_) => {},
        Err(e) => {
            return Err(e);
        },
    }
    let created_on = match &created_date {
        Some(text) => parse_day(text.as_str()),
        None => None,
    };
    Ok(
        OrderQuery {
            tenant_id,
            branch_id,
            status: search_text(status),
            order_number,
            created_on,
            window: page_window(page, page_size, 3),
        },
    )
}

/// The page of orders that the store returned, as shown.
pub fn orders_page(rows: Vec<Order>, total: i64, window: PageWindow) -> (page: Page<OrderView>)
    ensures
        page.total == total,
        page.page == window.page,
        page.page_size == window.size,
        page.data@.len() == rows@.len(),
        forall|k: int| 0 <= k < rows@.len() ==> shows_order(#[trigger] page.data@[k], rows@[k]),
{
    let ghost all = rows@;
    let mut source = rows;
    let mut data: Vec<OrderView> = Vec::new();
    while source.len() > 0
        invariant
            source@.len() + data@.len() == all.len(),
            source@ == all.take(source@.len() as int),
            forall|k: int|
                0 <= k < data@.len() ==> shows_order(#[trigger] data@[k], all[source@.len() + k]),
        decreases source@.len(),
    {
        let order = source.pop().unwrap();
        data.insert(0, order_view(order));
    }
    Page { data, total, page: window.page, page_size: window.size }
}

/// Why a request about the order `order_id` is refused before the order is
/// looked at, if it is: no live session, or an identifier that is not
/// written as one.
pub open spec fn order_request_refusal(
    sessions: Map<Seq<char>, crate::state::SessionData>,
    session_id: Seq<char>,
    now: i64,
    order_id: Seq<char>,
) -> Option<PosError> {
    if lookup(sessions, session_id, clock_secs(now)) is None {
        Some(PosError::SessionInvalid)
    } else if !spec_is_object_id(order_id) {
        Some(PosError::InvalidId)
    } else {
        None
    }
}

/// The order `order_id` as shown. `found` is what the store returned for
/// `order_id`. The request is refused with `SessionInvalid` without a live
/// session, with `InvalidId` if `order_id` is not written as an identifier,
/// and with `OrderNotFound` if the store has no such order.
pub fn get_order_by_id(
    state: &AppState,
    session_id: &str,
    now: i64,
    order_id: &str,
    found: Option<Order>,
) -> (result: Result<OrderView, PosError>)
    ensures
        match order_request_refusal(state.sessions@, session_id@, now, order_id@) {
            Some(e) => result == Err::<OrderView, PosError>(e),
            None => match found {
                Some(order) => result matches Ok(view) && shows_order(view, order),
                None => result == Err::<OrderView, PosError>(PosError::OrderNotFound),
            },
        },
{
    match require_session(state, session_id, clock_secs(now)) {
        Ok(_) => {},
        Err(e) => {
            return Err(e);
        },
    }
    if !is_object_id(order_id) {
        return Err(PosError::InvalidId);
    }
    match found {
        Some(order) => Ok(order_view(order)),
        None => Err(PosError::OrderNotFound),
    }
}

/// The receipt of the order `order_id`, dated `date`: the client's for the
/// receipt type `customer`, the kitchen's for any other. `found` is what the
/// store returned for `order_id`. The request is refused with
/// `SessionInvalid` without a live session, with `InvalidId` if `order_id` is
/// not written as an identifier, and with `OrderNotFound` if the store has
/// no such order.
pub fn print_order_receipt(
    state: &AppState,
    session_id: &str,
    now: i64,
    order_id: &str,
    receipt_type: &str,
    found: Option<Order>,
    date: &str,
) -> (result: Result<String, PosError>)
    ensures
        match order_request_refusal(state.sessions@, session_id@, now, order_id@) {
            Some(e) => result == Err::<String, PosError>(e),
            None => match found {
                Some(order) => result matches Ok(receipt) && receipt@ == (if receipt_type@
                    == "customer"@ {
                    customer_receipt(order, date@)
                } else {
                    kitchen_receipt(order, date@)
                }),
                None => result == Err::<String, PosError>(PosError::OrderNotFound),
            },
        },
{
    match require_session(state, session_id, clock_secs(now)) {
        Ok(_) => {},
        Err(e) => {
            return Err(e);
        },
    }
    if !is_object_id(order_id) {
        return Err(PosError::InvalidId);
    }
    match found {
        Some(order) => {
            if same_text(receipt_type, "customer") {
                Ok(generate_customer_receipt(&order, date))
            } else {
                Ok(generate_kitchen_receipt(&order, date))
            }
        },
        None => Err(PosError::OrderNotFound),
    }
}

/// Whether the order `order_id` may be deleted at `now`: only by an
/// administrator, and only if `order_id` is written as an identifier. The
/// deletion itself is the store's; deleting an order that is not there is no
/// error.
pub fn delete_order(state: &AppState, session_id: &str, now: i64, order_id: &str) -> (result:
    Result<(), PosError>)
    ensures
        result == (match admin_refusal(state.sessions@, session_id@, now) {
            Some(e) => Err::<(), PosError>(e),
            None => if spec_is_object_id(order_id@) {
                Ok::<(), PosError>(())
            } else {
                Err::<(), PosError>(PosError::InvalidId)
            },
        }),
{
    match check_admin(state, session_id, now) {
        Ok(()) => {},
        Err(e) => {
            return Err(e);
        },
    }
    if !is_object_id(order_id) {
        return Err(PosError::InvalidId);
    }
    Ok(())
}

} // verus!
