//! Tickets: what is sent to a receipt printer for an order, and how long the
//! paper for it is.

use vstd::prelude::*;
use vstd::string::StringExecFns;
use vstd::utf8::encode_utf8;
use crate::auth::require_session;
use crate::db::{DeliveryInfo, Order, OrderItem, PaymentMethod};
use crate::error::PosError;
use crate::orders::order_request_refusal;
use crate::state::{clock_secs, AppState};
use crate::text::is_object_id;
use crate::text::{
    decimal, money, push_bytes, push_decimal, push_money, same_text, trim_text, trimmed,
};

verus! {

/// A printer that the system knows.
#[derive(Debug)]
pub struct PrinterInfo {
    pub name: String,
}

/// A request to print the ticket of an order.
#[derive(Debug)]
pub struct PrintOrderReq {
    pub order_id: String,
    /// `KITCHEN` for the kitchen's copy; anything else is the client's.
    pub copy: Option<String>,
    pub printer_name: Option<String>,
    pub serial_port: Option<String>,
}

/// Whose copy of a ticket is printed.
#[derive(Debug, Clone, Copy, PartialEq, Eq, Structural)]
pub enum CopyKind {
    Kitchen,
    Client,
}

impl CopyKind {
    /// The copy that `name` asks for: the kitchen's for `KITCHEN`, the
    /// client's for any other name and for none.
    pub fn from_str(name: Option<String>) -> (kind: CopyKind)
        ensures
            kind == (if name matches Some(n) && n@ == "KITCHEN"@ {
                CopyKind::Kitchen
            } else {
                CopyKind::Client
            }),
    {
        match name {
            Some(n) => {
                if same_text(n.as_str(), "KITCHEN") {
                    CopyKind::Kitchen
                } else {
                    CopyKind::Client
                }
            },
            None => CopyKind::Client,
        }
    }
}

/// The command that resets the printer.
pub open spec fn init_bytes() -> Seq<u8> {
    seq![0x1Bu8, 0x40u8]
}

/// The command that centres what follows.
pub open spec fn center_bytes() -> Seq<u8> {
    seq![0x1Bu8, 0x61u8, 0x01u8]
}

/// The command that sets what follows to the left.
pub open spec fn left_bytes() -> Seq<u8> {
    seq![0x1Bu8, 0x61u8, 0x00u8]
}

/// The command that feeds the paper and cuts it.
pub open spec fn cut_bytes() -> Seq<u8> {
    seq![0x1Du8, 0x56u8, 0x42u8, 0x10u8]
}

/// Appends the command that resets the printer.
pub fn escpos_init(out: &mut Vec<u8>)
    ensures
        final(out)@ == old(out)@ + init_bytes(),
{
    out.push(0x1B);
    out.push(0x40);
}

/// Appends the command that centres what follows.
pub fn escpos_center(out: &mut Vec<u8>)
    ensures
        final(out)@ == old(out)@ + center_bytes(),
{
    out.push(0x1B);
    out.push(0x61);
    out.push(0x01);
}

/// Appends the command that sets what follows to the left.
pub fn escpos_left(out: &mut Vec<u8>)
    ensures
        final(out)@ == old(out)@ + left_bytes(),
{
    out.push(0x1B);
    out.push(0x61);
    out.push(0x00);
}

/// Appends the command that feeds the paper and cuts it.
pub fn escpos_cut(out: &mut Vec<u8>)
    ensures
        final(out)@ == old(out)@ + cut_bytes(),
{
    out.push(0x1D);
    out.push(0x56);
    out.push(0x42);
    out.push(0x10);
}

/// The remark of an order: its comments without the white space around
/// them, if anything is left.
pub open spec fn remark(comments: Option<String>) -> Option<Seq<char>> {
    match comments {
        Some(c) => if trimmed(c@).len() > 0 {
            Some(trimmed(c@))
        } else {
            None
        },
        None => None,
    }
}

/// How a way of paying is named on a ticket.
pub open spec fn spec_payment_name(method: PaymentMethod) -> Seq<char> {
    match method {
        PaymentMethod::CASH => "EFECTIVO"@,
        PaymentMethod::CARD => "TARJETA"@,
        PaymentMethod::QR => "QR"@,
    }
}

/// How a way of paying is named on a ticket.
pub fn payment_name(method: PaymentMethod) -> (name: &'static str)
    ensures
        name@ == spec_payment_name(method),
{
    match method {
        PaymentMethod::CASH => "EFECTIVO",
        PaymentMethod::CARD => "TARJETA",
        PaymentMethod::QR => "QR",
    }
}

/// The two lines of one line of an order on the client's ticket: the name
/// with the quantity, then the amount with the price of one.
pub open spec fn client_item_text(item: OrderItem) -> Seq<char> {
    item.name@ + " x"@ + decimal(item.quantity as int) + "\n"@ + "  Bs "@ + money(
        item.price * item.quantity,
    ) + " (c/u Bs "@ + money(item.price as int) + ")\n"@
}

/// The lines of an order on the client's ticket.
pub open spec fn client_items_text(items: Seq<OrderItem>) -> Seq<char>
    decreases items.len(),
{
    if items.len() == 0 {
        Seq::empty()
    } else {
        client_items_text(items.drop_last()) + client_item_text(items.last())
    }
}

/// What the client's ticket says in the middle of the paper.
pub open spec fn client_head(order: Order) -> Seq<char> {
    "EL TITI WINGS\n"@ + "Pedido N°"@ + decimal(order.order_number as int) + "\n"@
}

/// What the client's ticket says about the cash taken, if any was.
pub open spec fn client_cash_text(order: Order) -> Seq<char> {
    match order.cash_amount {
        Some(taken) => "Recibido: Bs "@ + money(taken as int) + "  Cambio: Bs "@ + money(
            match order.cash_change {
                Some(change) => change as int,
                None => 0,
            },
        ) + "\n"@,
        None => Seq::empty(),
    }
}

/// What the client's ticket says about the remark, if there is one.
pub open spec fn client_remark_text(order: Order) -> Seq<char> {
    match remark(order.comments) {
        Some(r) => "Obs: "@ + r + "\n"@,
        None => Seq::empty(),
    }
}

/// What the client's ticket says at the left of the paper: the lines of the
/// order between two rules, the total, the way of paying, the cash taken
/// and the remark, and two empty lines.
pub open spec fn client_body(order: Order) -> Seq<char> {
    "------------------------------\n"@ + client_items_text(order.items@)
        + "------------------------------\n"@ + "TOTAL: Bs "@ + money(order.total as int) + "\n"@
        + "Pago: "@ + spec_payment_name(order.payment_method) + "\n"@ + client_cash_text(order)
        + client_remark_text(order) + "\n\n"@
}

/// The client's ticket as it is sent to the printer: reset; the head,
/// centred; the body, at the left; cut. Text is sent as UTF-8.
pub open spec fn client_ticket(order: Order) -> Seq<u8> {
    init_bytes() + center_bytes() + encode_utf8(client_head(order)) + left_bytes() + encode_utf8(
        client_body(order),
    ) + cut_bytes()
}

/// The line of one line of an order on the kitchen's ticket.
pub open spec fn kitchen_item_text(item: OrderItem) -> Seq<char> {
    "• "@ + item.name@ + " x"@ + decimal(item.quantity as int) + "\n"@
}

/// The lines of an order on the kitchen's ticket.
pub open spec fn kitchen_items_text(items: Seq<OrderItem>) -> Seq<char>
    decreases items.len(),
{
    if items.len() == 0 {
        Seq::empty()
    } else {
        kitchen_items_text(items.drop_last()) + kitchen_item_text(items.last())
    }
}

/// What the kitchen's ticket says in the middle of the paper.
pub open spec fn kitchen_head(order: Order) -> Seq<char> {
    "COCINA\n"@ + "Pedido #"@ + decimal(order.order_number as int) + "\n"@
}

/// What the kitchen's ticket says about the remark, if there is one.
pub open spec fn kitchen_remark_text(order: Order) -> Seq<char> {
    match remark(order.comments) {
        Some(r) => "\nOBSERVACIONES:\n"@ + r + "\n"@,
        None => Seq::empty(),
    }
}

/// What the kitchen's ticket says at the left of the paper: a rule, what is
/// to be prepared, the remark, and two empty lines.
pub open spec fn kitchen_body(order: Order) -> Seq<char> {
    "------------------------------\n"@ + "Preparar:\n"@ + kitchen_items_text(order.items@)
        + kitchen_remark_text(order) + "\n\n"@
}

/// The kitchen's ticket as it is sent to the printer: reset; the head,
/// centred; the body, at the left; cut. Text is sent as UTF-8.
pub open spec fn kitchen_ticket(order: Order) -> Seq<u8> {
    init_bytes() + center_bytes() + encode_utf8(kitchen_head(order)) + left_bytes() + encode_utf8(
        kitchen_body(order),
    ) + cut_bytes()
}

/// The amount of a line: price times quantity.
fn line_amount(item: &OrderItem) -> (amount: i128)
    ensures
        amount == item.price * item.quantity,
{
    assert(-0x8000_0000_0000_0000 * 0x8000_0000 <= item.price * item.quantity
        <= 0x8000_0000_0000_0000 * 0x8000_0000) by (nonlinear_arith)
        requires
            -0x8000_0000_0000_0000 <= item.price < 0x8000_0000_0000_0000,
            -0x8000_0000 <= item.quantity < 0x8000_0000,
    ;
    (item.price as i128) * (item.quantity as i128)
}

/// Appends the remark of an order between `before` and a line end, if there
/// is a remark.
fn push_remark(text: &mut String, comments: &Option<String>, before: &str)
    ensures
        final(text)@ == old(text)@ + (match remark(*comments) {
            Some(r) => before@ + r + "\n"@,
            None => Seq::<char>::empty(),
        }),
{
    match comments {
        Some(c) => {
            let rest = trim_text(c.as_str());
            if !rest.is_empty() {
                text.append(before);
                text.append(rest);
                text.append("\n");
            } else {
                assert(text@ =~= old(text)@ + Seq::<char>::empty());
            }
        },
        None => {},
    }
}

/// The client's ticket of `order`, as it is sent to the printer.
pub fn render_ticket_escpos_client(order: &Order) -> (out: Vec<u8>)
    ensures
        out@ == client_ticket(*order),
{
    let mut head = String::new();
    head.append("EL TITI WINGS\n");
    head.append("Pedido N°");
    push_decimal(&mut head, order.order_number as i128);
    head.append("\n");

    let mut body = String::new();
    body.append("------------------------------\n");
    let ghost rule = body@;
    let mut i: usize = 0;
    while i < order.items.len()
        invariant
            i <= order.items@.len(),
            body@ == rule + client_items_text(order.items@.take(i as int)),
        decreases order.items@.len() - i,
    {
        let item = &order.items[i];
        let ghost before = body@;
        body.append(item.name.as_str());
        body.append(" x");
        push_decimal(&mut body, item.quantity as i128);
        body.append("\n");
        body.append("  Bs ");
        push_money(&mut body, line_amount(item));
        body.append(" (c/u Bs ");
        push_money(&mut body, item.price as i128);
        body.append(")\n");
        proof {
            assert(order.items@.take(i + 1).drop_last() =~= order.items@.take(i as int));
            assert(body@ =~= before + client_item_text(*item));
        }
        i += 1;
    }
    proof {
        assert(order.items@.take(order.items@.len() as int) =~= order.items@);
    }
    body.append("------------------------------\n");
    body.append("TOTAL: Bs ");
    push_money(&mut body, order.total as i128);
    body.append("\n");
    body.append("Pago: ");
    body.append(payment_name(order.payment_method));
    body.append("\n");
    match order.cash_amount {
        Some(taken) => {
            let change = match order.cash_change {
                Some(change) => change,
                None => 0,
            };
            body.append("Recibido: Bs ");
            push_money(&mut body, taken as i128);
            body.append("  Cambio: Bs ");
            push_money(&mut body, change as i128);
            body.append("\n");
        },
        None => {},
    }
    push_remark(&mut body, &order.comments, "Obs: ");
    body.append("\n\n");
    assert(body@ =~= client_body(*order));

    let mut out: Vec<u8> = Vec::new();
    escpos_init(&mut out);
    escpos_center(&mut out);
    push_bytes(&mut out, head.as_str().as_bytes());
    escpos_left(&mut out);
    push_bytes(&mut out, body.as_str().as_bytes());
    escpos_cut(&mut out);
    out
}

/// The kitchen's ticket of `order`, as it is sent to the printer.
pub fn render_ticket_escpos_kitchen(order: &Order) -> (out: Vec<u8>)
    ensures
        out@ == kitchen_ticket(*order),
{
    let mut head = String::new();
    head.append("COCINA\n");
    head.append("Pedido #");
    push_decimal(&mut head, order.order_number as i128);
    head.append("\n");

    let mut body = String::new();
    body.append("------------------------------\n");
    body.append("Preparar:\n");
    let ghost start = body@;
    let mut i: usize = 0;
    while i < order.items.len()
        invariant
            i <= order.items@.len(),
            body@ == start + kitchen_items_text(order.items@.take(i as int)),
        decreases order.items@.len() - i,
    {
        let item = &order.items[i];
        body.append("• ");
        body.append(item.name.as_str());
        body.append(" x");
        push_decimal(&mut body, item.quantity as i128);
        body.append("\n");
        proof {
            assert(order.items@.take(i + 1).drop_last() =~= order.items@.take(i as int));
        }
        i += 1;
    }
    proof {
        assert(order.items@.take(order.items@.len() as int) =~= order.items@);
    }
    push_remark(&mut body, &order.comments, "\nOBSERVACIONES:\n");
    body.append("\n\n");

    let mut out: Vec<u8> = Vec::new();
    escpos_init(&mut out);
    escpos_center(&mut out);
    push_bytes(&mut out, head.as_str().as_bytes());
    escpos_left(&mut out);
    push_bytes(&mut out, body.as_str().as_bytes());
    escpos_cut(&mut out);
    out
}

/// Whether `text` holds more than white space.
pub open spec fn filled(text: Option<String>) -> bool {
    text matches Some(t) && trimmed(t@).len() > 0
}

/// Whether `text` holds more than white space.
fn is_filled(text: &Option<String>) -> (answer: bool)
    ensures
        answer == filled(*text),
{
    match text {
        Some(t) => !trim_text(t.as_str()).is_empty(),
        None => false,
    }
}

/// The length of the paper for so many lines, in tenths of a millimetre: a
/// line takes fifty-two, and the paper is never shorter than twelve
/// centimetres nor longer than sixty.
pub open spec fn paper_height(lines: int) -> int {
    if 52 * lines < 1200 {
        1200
    } else if 52 * lines > 6000 {
        6000
    } else {
        52 * lines
    }
}

/// How many lines the delivery of an order takes on the client's ticket.
pub open spec fn delivery_lines(delivery: Option<DeliveryInfo>) -> int {
    match delivery {
        Some(d) => 2 + (if filled(d.address) {
            1int
        } else {
            0int
        }) + (if filled(d.phone) {
            1int
        } else {
            0int
        }),
        None => 0,
    }
}

/// How many lines the client's ticket of `order` takes: twelve, two for
/// each line of the order, one for the way of paying, one for the cash taken,
/// two for the remark, and those of the delivery.
pub open spec fn client_lines(order: Order) -> int {
    12 + 2 * order.items@.len() + 1 + (if order.cash_amount is Some {
        1int
    } else {
        0int
    }) + (if filled(order.comments) {
        2int
    } else {
        0int
    }) + delivery_lines(order.delivery)
}

/// How many lines the kitchen's ticket of `order` takes: seven, one for
/// each line of the order, and three for the remark.
pub open spec fn kitchen_lines(order: Order) -> int {
    7 + order.items@.len() + (if filled(order.comments) {
        3int
    } else {
        0int
    })
}

/// The length of the paper for the client's ticket of `order`, in tenths of
/// a millimetre.
pub fn estimate_height_client(order: &Order) -> (tenths: u32)
    ensures
        tenths == paper_height(client_lines(*order)),
{
    let n = order.items.len();
    let mut extra: u32 = 1;
    if order.cash_amount.is_some() {
        extra += 1;
    }
    if is_filled(&order.comments) {
        extra += 2;
    }
    match &order.delivery {
        Some(d) => {
            extra += 2;
            if is_filled(&d.address) {
                extra += 1;
            }
            if is_filled(&d.phone) {
                extra += 1;
            }
        },
        None => {},
    }
    if n > 100 {
        6000
    } else {
        let lines: u32 = 12 + 2 * (n as u32) + extra;
        let height = 52 * lines;
        if height < 1200 {
            1200
        } else if height > 6000 {
            6000
        } else {
            height
        }
    }
}

/// The length of the paper for the kitchen's ticket of `order`, in tenths of
/// a millimetre.
pub fn estimate_height_kitchen(order: &Order) -> (tenths: u32)
    ensures
        tenths == paper_height(kitchen_lines(*order)),
{
    let n = order.items.len();
    let extra: u32 = if is_filled(&order.comments) {
        3
    } else {
        0
    };
    if n > 200 {
        6000
    } else {
        let lines: u32 = 7 + (n as u32) + extra;
        let height = 52 * lines;
        if height < 1200 {
            1200
        } else if height > 6000 {
            6000
        } else {
            height
        }
    }
}

/// The amount of `minor` minor units as a ticket writes it: the sign of
/// the currency, then whole units with two decimals.
pub open spec fn spec_to_money(minor: i64) -> Seq<char> {
    "Bs "@ + money(minor as int)
}

/// The amount of `minor` minor units as a ticket writes it.
pub fn to_money(minor: i64) -> (text: String)
    ensures
        text@ == spec_to_money(minor),
{
    let mut text = "Bs ".to_owned();
    push_money(&mut text, minor as i128);
    text
}

/// A ticket that is ready to be printed.
#[derive(Debug)]
pub struct PrintJob {
    pub kind: CopyKind,
    pub order: Order,
    /// The ticket as a receipt printer on a serial port takes it.
    pub ticket: Vec<u8>,
}

/// Prepares the ticket that `req` asks for. `found` is what the store
/// returned for the order of the request. The request is refused with
/// `SessionInvalid` without a live session, with `InvalidId` if the order is
/// not written as an identifier, and with `OrderNotFound` if the store has
/// no such order. Otherwise the job holds the order, whose copy is asked
/// for, and that copy as a receipt printer takes it.
pub fn print_order_ticket(
    state: &AppState,
    session_id: &str,
    now: i64,
    order_id: &str,
    copy: Option<String>,
    found: Option<Order>,
) -> (result: Result<PrintJob, PosError>)
    ensures
        match order_request_refusal(state.sessions@, session_id@, now, order_id@) {
            Some(e) => result == Err::<PrintJob, PosError>(e),
            None => match found {
                Some(order) => {
                    &&& result matches Ok(job)
                    &&& job.order == order
                    &&& job.kind == (if copy matches Some(n) && n@ == "KITCHEN"@ {
                        CopyKind::Kitchen
                    } else {
                        CopyKind::Client
                    })
                    &&& job.ticket@ == (match job.kind {
                        CopyKind::Client => client_ticket(order),
                        CopyKind::Kitchen => kitchen_ticket(order),
                    })
                },
                None => result == Err::<PrintJob, PosError>(PosError::OrderNotFound),
            },
        },
{
    match require_session(state, session_id, clock_secs(now)) {
        Ok(_) => {},
        Err(e) => {
            return Err(e);
        },
    }
    if !is_object_id(order_id) {
        return Err(PosError::InvalidId);
    }
    let order = match found {
        Some(order) => order,
        None => {
            return Err(PosError::OrderNotFound);
        },
    };
    let kind = CopyKind::from_str(copy);
    let ticket = match kind {
        CopyKind::Client => render_ticket_escpos_client(&order),
        CopyKind::Kitchen => render_ticket_escpos_kitchen(&order),
    };
    Ok(PrintJob { kind, order, ticket })
}

/// How the attempt to print on a named printer of the system ended.
#[derive(Debug, Clone, Copy, PartialEq, Eq, Structural)]
pub enum SystemPrint {
    /// The request names no printer of the system.
    NotAsked,
    /// The printers of the system could not be listed.
    NoList,
    /// The system has no printer of that name.
    NoSuchPrinter,
    /// The ticket could not be laid out.
    LayoutFailed,
    /// The laid-out ticket could not be written to a file.
    FileFailed,
    /// The printer did not print the file.
    PrintFailed,
    /// The ticket was printed.
    Printed,
}

/// Why a ticket was not printed.
#[derive(Debug, Clone, Copy, PartialEq, Eq, Structural)]
pub enum PrintFailure {
    NoList,
    NoSuchPrinter,
    LayoutFailed,
    FileFailed,
    PrintFailed,
    /// The serial port could not be opened.
    PortFailed,
    /// The ticket could not be sent to the serial port.
    SendFailed,
    /// The request names neither a printer nor a serial port.
    NothingConfigured,
}

/// What the operator is told when a ticket was not printed. `name` is the
/// printer or the serial port that was tried, `detail` what the system said
/// of the failure.
pub open spec fn spec_failure_text(failure: PrintFailure, name: Seq<char>, detail: Seq<char>) -> Seq<
    char,
> {
    match failure {
        PrintFailure::NoList => "No se pudieron enumerar impresoras de Windows."@,
        PrintFailure::NoSuchPrinter => "Impresora '"@ + name
            + "' no encontrada. Selecciona otra o usa puerto COM."@,
        PrintFailure::PrintFailed => "No se pudo imprimir en '"@ + name + "': "@ + detail
            + ". Selecciona otra impresora o configura un puerto COM."@,
        PrintFailure::LayoutFailed => detail,
        PrintFailure::FileFailed => detail,
        PrintFailure::PortFailed => "No se pudo abrir "@ + name + ": "@ + detail
            + ". Selecciona otro puerto o impresora."@,
        PrintFailure::SendFailed => "Error enviando a "@ + name + ": "@ + detail + "."@,
        PrintFailure::NothingConfigured =>
            "No se detecta impresora seleccionada ni puerto COM configurado."@,
    }
}

/// What the operator is told when a ticket was not printed.
pub fn failure_text(failure: PrintFailure, name: &str, detail: &str) -> (text: String)
    ensures
        text@ == spec_failure_text(failure, name@, detail@),
{
    match failure {
        PrintFailure::NoList => "No se pudieron enumerar impresoras de Windows.".to_owned(),
        PrintFailure::NoSuchPrinter => {
            let mut text = "Impresora '".to_owned();
            text.append(name);
            text.append("' no encontrada. Selecciona otra o usa puerto COM.");
            text
        },
        PrintFailure::PrintFailed => {
            let mut text = "No se pudo imprimir en '".to_owned();
            text.append(name);
            text.append("': ");
            text.append(detail);
            text.append(". Selecciona otra impresora o configura un puerto COM.");
            text
        },
        PrintFailure::LayoutFailed => detail.to_owned(),
        PrintFailure::FileFailed => detail.to_owned(),
        PrintFailure::PortFailed => {
            let mut text = "No se pudo abrir ".to_owned();
            text.append(name);
            text.append(": ");
            text.append(detail);
            text.append(". Selecciona otro puerto o impresora.");
            text
        },
        PrintFailure::SendFailed => {
            let mut text = "Error enviando a ".to_owned();
            text.append(name);
            text.append(": ");
            text.append(detail);
            text.append(".");
            text
        },
        PrintFailure::NothingConfigured => {
            "No se detecta impresora seleccionada ni puerto COM configurado.".to_owned()
        },
    }
}

/// What is done after the attempt on the system's printer.
#[derive(Debug, Clone, Copy, PartialEq, Eq, Structural)]
pub enum AfterSystemPrint {
    /// The ticket is printed; nothing is left to do.
    Done,
    /// The ticket is sent to the serial port.
    TrySerial,
    /// The request fails.
    Fail(PrintFailure),
}

/// What is done after the attempt on the system's printer ended as `ended`.
/// A printed ticket ends the request. A ticket that could not be laid out
/// or written fails it. In every other case the serial port is tried if the
/// request names one; if it names none, the request fails with what went
/// wrong, or, if no printer was asked for either, because nothing is
/// configured.
pub fn after_system_print(ended: SystemPrint, has_serial_port: bool) -> (next: AfterSystemPrint)
    ensures
        next == (match ended {
            SystemPrint::Printed => AfterSystemPrint::Done,
            SystemPrint::LayoutFailed => AfterSystemPrint::Fail(PrintFailure::LayoutFailed),
            SystemPrint::FileFailed => AfterSystemPrint::Fail(PrintFailure::FileFailed),
            SystemPrint::NotAsked => if has_serial_port {
                AfterSystemPrint::TrySerial
            } else {
                AfterSystemPrint::Fail(PrintFailure::NothingConfigured)
            },
            SystemPrint::NoList => if has_serial_port {
                AfterSystemPrint::TrySerial
            } else {
                AfterSystemPrint::Fail(PrintFailure::NoList)
            },
            SystemPrint::NoSuchPrinter => if has_serial_port {
                AfterSystemPrint::TrySerial
            } else {
                AfterSystemPrint::Fail(PrintFailure::NoSuchPrinter)
            },
            SystemPrint::PrintFailed => if has_serial_port {
                AfterSystemPrint::TrySerial
            } else {
                AfterSystemPrint::Fail(PrintFailure::PrintFailed)
            },
        }),
{
    match ended {
        SystemPrint::Printed => AfterSystemPrint::Done,
        SystemPrint::LayoutFailed => AfterSystemPrint::Fail(PrintFailure::LayoutFailed),
        SystemPrint::FileFailed => AfterSystemPrint::Fail(PrintFailure::FileFailed),
        SystemPrint::NotAsked => {
            if has_serial_port {
                AfterSystemPrint::TrySerial
            } else {
                AfterSystemPrint::Fail(PrintFailure::NothingConfigured)
            }
        },
        SystemPrint::NoList => {
            if has_serial_port {
                AfterSystemPrint::TrySerial
            } else {
                AfterSystemPrint::Fail(PrintFailure::NoList)
            }
        },
        SystemPrint::NoSuchPrinter => {
            if has_serial_port {
                AfterSystemPrint::TrySerial
            } else {
                AfterSystemPrint::Fail(PrintFailure::NoSuchPrinter)
            }
        },
        SystemPrint::PrintFailed => {
            if has_serial_port {
                AfterSystemPrint::TrySerial
            } else {
                AfterSystemPrint::Fail(PrintFailure::PrintFailed)
            }
        },
    }
}

} // verus!
