//! Reports: what is asked of the store for them, and how what the store
//! returns is put together.

use vstd::prelude::*;
use vstd::string::StringExecFns;
use crate::auth::require_session;
use crate::dates::{chrono_day, range_bounds, CalendarDay};
use crate::error::PosError;
use crate::orders::{page_window, spec_page_number, spec_page_size, spec_page_skip, PageWindow};
use crate::state::{clock_secs, lookup, AppState};
use crate::text::{is_object_id, new_object_id, push_zero_padded, spec_is_object_id, zero_padded};
use crate::users::{admin_refusal, check_admin};

verus! {

/// What was sold by one way of paying.
#[derive(Debug)]
pub struct MethodTotal {
    pub method: String,
    pub amount: i64,
}

/// What was sold of one category.
#[derive(Debug)]
pub struct CategoryTotal {
    pub category: String,
    pub amount: i64,
}

/// What was sold or spent on one day.
#[derive(Debug)]
pub struct Point {
    pub date: String,
    pub amount: i64,
}

/// What was sold of one product.
#[derive(Debug)]
pub struct TopProduct {
    pub name: String,
    pub qty: i64,
    pub sales: i64,
}

/// The sales of a range of days.
#[derive(Debug)]
pub struct SalesOverview {
    pub total_sales: i64,
    pub orders: i64,
    pub avg_ticket: i64,
    pub by_method: Vec<MethodTotal>,
    pub by_category: Vec<CategoryTotal>,
    pub timeseries: Vec<Point>,
    pub top_products: Vec<TopProduct>,
}

/// Income and expenses of a range of days.
#[derive(Debug)]
pub struct ProfitLoss {
    pub ingresos: i64,
    pub egresos: i64,
    /// Income less expenses. It is wide enough for every income and expense.
    pub neto: i128,
    pub ingresos_series: Vec<Point>,
    pub egresos_series: Vec<Point>,
}

/// An expense as the reports read it from the store.
#[derive(Debug)]
pub struct ExpenseDoc {
    pub id: String,
    pub tenant_id: String,
    pub branch_id: String,
    pub amount: i64,
    pub description: String,
    pub category: Option<String>,
    pub created_at: i64,
    pub date: i64,
    pub created_by: Option<String>,
}

/// What is asked for to record an expense.
#[derive(Debug)]
pub struct NewExpense {
    pub tenant_id: String,
    pub branch_id: String,
    pub description: String,
    pub amount: i64,
}

/// An expense as stored.
#[derive(Debug)]
pub struct Expense {
    pub id: String,
    pub tenant_id: String,
    pub branch_id: String,
    pub description: String,
    pub amount: i64,
    pub created_at: i64,
    pub updated_at: i64,
}

/// Income and expenses of one month.
#[derive(Debug)]
pub struct MonthPnL {
    /// The month, written as year and month.
    pub month: String,
    pub ingresos: i64,
    pub egresos: i64,
    /// Income less expenses. It is wide enough for every income and expense.
    pub neto: i128,
}

/// What the store summed up for one month.
#[derive(Debug, Clone, Copy, PartialEq, Eq, Structural)]
pub struct MonthRow {
    pub month: i32,
    pub amount: i64,
}

/// The range of days that a report is about: the session must be live, and
/// both days must be written as year, month and day.
pub fn report_range(state: &AppState, session_id: &str, now: i64, from_date: &str, to_date: &str) -> (
    result: Result<(CalendarDay, CalendarDay), PosError>)
    ensures
        result == (if lookup(state.sessions@, session_id@, clock_secs(now)) is None {
            Err::<(CalendarDay, CalendarDay), PosError>(PosError::SessionInvalid)
        } else {
            match chrono_day(from_date@) {
                None => Err::<(CalendarDay, CalendarDay), PosError>(PosError::InvalidFromDate),
                Some(from) => match chrono_day(to_date@) {
                    None => Err::<(CalendarDay, CalendarDay), PosError>(PosError::InvalidToDate),
                    Some(to) => Ok::<(CalendarDay, CalendarDay), PosError>((from, to)),
                },
            }
        }),
{
    match require_session(state, session_id, clock_secs(now)) {
        Ok(_) => {},
        Err(e) => {
            return Err(e);
        },
    }
    range_bounds(from_date, to_date)
}

/// Income and expenses put together: the net is income less expenses.
pub fn report_profit_and_loss(
    ingresos: i64,
    egresos: i64,
    ingresos_series: Vec<Point>,
    egresos_series: Vec<Point>,
) -> (report: ProfitLoss)
    ensures
        report == (ProfitLoss {
            ingresos,
            egresos,
            neto: (ingresos - egresos) as i128,
            ingresos_series,
            egresos_series,
        }),
{
    ProfitLoss {
        ingresos,
        egresos,
        neto: ingresos as i128 - egresos as i128,
        ingresos_series,
        egresos_series,
    }
}

/// What to list of the documents of a tenant and branch that fall into a
/// range of days.
#[derive(Debug)]
pub struct RangeQuery {
    pub tenant_id: String,
    pub branch_id: String,
    pub from: CalendarDay,
    pub to: CalendarDay,
    pub window: PageWindow,
}

/// What a listing over a range of days asks the store for: the session must
/// be live and both days written as year, month and day; a page has twenty
/// entries unless another size is asked for.
pub open spec fn spec_range_query(
    session_live: bool,
    tenant_id: String,
    branch_id: String,
    from_date: Seq<char>,
    to_date: Seq<char>,
    page: Option<i64>,
    page_size: Option<i64>,
) -> Result<RangeQuery, PosError> {
    if !session_live {
        Err(PosError::SessionInvalid)
    } else {
        match chrono_day(from_date) {
            None => Err(PosError::InvalidFromDate),
            Some(from) => match chrono_day(to_date) {
                None => Err(PosError::InvalidToDate),
                Some(to) => Ok(
                    RangeQuery {
                        tenant_id,
                        branch_id,
                        from,
                        to,
                        window: PageWindow {
                            page: spec_page_number(page),
                            size: spec_page_size(page_size, 20),
                            skip: spec_page_skip(
                                spec_page_number(page),
                                spec_page_size(page_size, 20),
                            ),
                        },
                    },
                ),
            },
        }
    }
}

/// What to ask the store for to list the expenses of a range of days.
pub fn expenses_list(
    state: &AppState,
    session_id: &str,
    now: i64,
    tenant_id: String,
    branch_id: String,
    from_date: &str,
    to_date: &str,
    page: Option<i64>,
    page_size: Option<i64>,
) -> (result: Result<RangeQuery, PosError>)
    ensures
        result == spec_range_query(
            lookup(state.sessions@, session_id@, clock_secs(now)) is Some,
            tenant_id,
            branch_id,
            from_date@,
            to_date@,
            page,
            page_size,
        ),
{
    let (from, to) = match report_range(state, session_id, now, from_date, to_date) {
        Ok(range) => range,
        Err(e) => {
            return Err(e);
        },
    };
    Ok(RangeQuery { tenant_id, branch_id, from, to, window: page_window(page, page_size, 20) })
}

/// What to ask the store for to list the cash shifts opened in a range of
/// days.
pub fn shifts_query(
    state: &AppState,
    session_id: &str,
    now: i64,
    tenant_id: String,
    branch_id: String,
    from_date: &str,
    to_date: &str,
    page: Option<i64>,
    page_size: Option<i64>,
) -> (result: Result<RangeQuery, PosError>)
    ensures
        result == spec_range_query(
            lookup(state.sessions@, session_id@, clock_secs(now)) is Some,
            tenant_id,
            branch_id,
            from_date@,
            to_date@,
            page,
            page_size,
        ),
{
    expenses_list(state, session_id, now, tenant_id, branch_id, from_date, to_date, page, page_size)
}

/// Records the expense that `payload` asks for, at `now`, in milliseconds
/// since the epoch. Without a live session the request is refused with
/// `SessionInvalid`. The expense handed back has a newly made identifier and
/// is the one to store.
pub fn expense_create(state: &AppState, session_id: &str, now: i64, payload: NewExpense) -> (result:
    Result<Expense, PosError>)
    ensures
        match lookup(state.sessions@, session_id@, clock_secs(now)) {
            None => result == Err::<Expense, PosError>(PosError::SessionInvalid),
            Some(_) => {
                &&& result matches Ok(expense)
                &&& spec_is_object_id(expense.id@)
                &&& expense == (Expense {
                    id: expense.id,
                    tenant_id: payload.tenant_id,
                    branch_id: payload.branch_id,
                    description: payload.description,
                    amount: payload.amount,
                    created_at: now,
                    updated_at: now,
                })
            },
        },
{
    match require_session(state, session_id, clock_secs(now)) {
        Ok(_) => {},
        Err(e) => {
            return Err(e);
        },
    }
    Ok(
        Expense {
            id: new_object_id(),
            tenant_id: payload.tenant_id,
            branch_id: payload.branch_id,
            description: payload.description,
            amount: payload.amount,
            created_at: now,
            updated_at: now,
        },
    )
}

/// Whether the expense `expense_id` may be deleted at `now`: only by an
/// administrator, and only if `expense_id` is written as an identifier. The
/// deletion itself is the store's.
pub fn expense_delete(state: &AppState, session_id: &str, now: i64, expense_id: &str) -> (result:
    Result<(), PosError>)
    ensures
        result == (match admin_refusal(state.sessions@, session_id@, now) {
            Some(e) => Err::<(), PosError>(e),
            None => if spec_is_object_id(expense_id@) {
                Ok::<(), PosError>(())
            } else {
                Err::<(), PosError>(PosError::InvalidId)
            },
        }),
{
    match check_admin(state, session_id, now) {
        Ok(()) => {},
        Err(e) => {
            return Err(e);
        },
    }
    if !is_object_id(expense_id) {
        return Err(PosError::InvalidId);
    }
    Ok(())
}

/// What the rows `rows` say of the month `month`: the amount of the last
/// row for it, or nothing if there is no row for it.
pub open spec fn month_amount(rows: Seq<MonthRow>, month: int) -> i64
    decreases rows.len(),
{
    if rows.len() == 0 {
        0
    } else if rows.last().month == month {
        rows.last().amount
    } else {
        month_amount(rows.drop_last(), month)
    }
}

/// How a month of a year is written: the year in four places, the month in
/// two.
pub open spec fn month_label(year: i32, month: int) -> Seq<char> {
    zero_padded(year as int, 4) + "-"@ + zero_padded(month, 2)
}

/// The amounts of the twelve months that the rows `rows` give, at the places
/// one to twelve.
fn month_amounts(rows: &Vec<MonthRow>) -> (table: Vec<i64>)
    ensures
        table@.len() == 13,
        forall|m: int| 1 <= m <= 12 ==> #[trigger] table@[m] == month_amount(rows@, m),
{
    let mut table: Vec<i64> = Vec::new();
    let mut k: usize = 0;
    while k < 13
        invariant
            k <= 13,
            table@.len() == k,
            forall|m: int| 0 <= m < k ==> #[trigger] table@[m] == 0,
        decreases 13 - k,
    {
        table.push(0);
        k += 1;
    }
    let mut i: usize = 0;
    while i < rows.len()
        invariant
            i <= rows@.len(),
            table@.len() == 13,
            forall|m: int| 1 <= m <= 12 ==> #[trigger] table@[m] == month_amount(rows@.take(i as int), m),
        decreases rows@.len() - i,
    {
        let row = rows[i];
        proof {
            assert(rows@.take(i + 1).drop_last() =~= rows@.take(i as int));
        }
        if row.month >= 1 && row.month <= 12 {
            table.set(row.month as usize, row.amount);
        }
        i += 1;
    }
    proof {
        assert(rows@.take(rows@.len() as int) =~= rows@);
    }
    table
}

/// Income and expenses of each month of the year `year`, from January to
/// December. `income` and `expenses` are what the store summed up for the
/// months; a month without a row has nothing, a row for a month that does
/// not exist is passed over, and of two rows for one month the later counts.
/// The net of a month is its income less its expenses.
pub fn report_monthly_pnl(year: i32, income: &Vec<MonthRow>, expenses: &Vec<MonthRow>) -> (months:
    Vec<MonthPnL>)
    ensures
        months@.len() == 12,
        forall|k: int|
            0 <= k < 12 ==> {
                &&& (#[trigger] months@[k]).month@ == month_label(year, k + 1)
                &&& months@[k].ingresos == month_amount(income@, k + 1)
                &&& months@[k].egresos == month_amount(expenses@, k + 1)
                &&& months@[k].neto == months@[k].ingresos - months@[k].egresos
            },
{
    let ins = month_amounts(income);
    let outs = month_amounts(expenses);
    let mut months: Vec<MonthPnL> = Vec::new();
    let mut m: usize = 1;
    while m <= 12
        invariant
            1 <= m <= 13,
            ins@.len() == 13,
            outs@.len() == 13,
            forall|j: int| 1 <= j <= 12 ==> #[trigger] ins@[j] == month_amount(income@, j),
            forall|j: int| 1 <= j <= 12 ==> #[trigger] outs@[j] == month_amount(expenses@, j),
            months@.len() == m - 1,
            forall|k: int|
                0 <= k < m - 1 ==> {
                    &&& (#[trigger] months@[k]).month@ == month_label(year, k + 1)
                    &&& months@[k].ingresos == month_amount(income@, k + 1)
                    &&& months@[k].egresos == month_amount(expenses@, k + 1)
                    &&& months@[k].neto == months@[k].ingresos - months@[k].egresos
                },
        decreases 13 - m,
    {
        let mut label = String::new();
        push_zero_padded(&mut label, year as i64, 4);
        label.append("-");
        push_zero_padded(&mut label, m as i64, 2);
        let ingresos = ins[m];
        let egresos = outs[m];
        months.push(
            MonthPnL { month: label, ingresos, egresos, neto: ingresos as i128 - egresos as i128 },
        );
        m += 1;
    }
    months
}

} // verus!
