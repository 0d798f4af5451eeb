//! Tickets for a page printer: the lines of a ticket, one after another,
//! each with its weight and its place on the line. Laying them out on paper
//! is left to whoever prints them.

use vstd::prelude::*;
use vstd::string::{StrSliceExecFns, StringExecFns};
use crate::db::{DeliveryInfo, Order, OrderItem};
use crate::printer::{filled, payment_name, remark, spec_payment_name};
use crate::text::{decimal, money, push_decimal, push_money, trim_text, trimmed};

verus! {

/// Where on its line a text stands.
#[derive(Debug, Clone, Copy, PartialEq, Eq, Structural)]
pub enum Align {
    Left,
    Center,
    Right,
}

/// One line of a ticket.
#[derive(Debug)]
pub enum PdfLine {
    /// An empty line.
    Gap,
    /// A line of text.
    Text { text: String, bold: bool, align: Align },
}

/// A line of a ticket as contracts speak of it.
pub enum LineData {
    Gap,
    Text { text: Seq<char>, bold: bool, align: Align },
}

impl View for PdfLine {
    type V = LineData;

    open spec fn view(&self) -> LineData {
        match self {
            PdfLine::Gap => LineData::Gap,
            PdfLine::Text { text, bold, align } => LineData::Text {
                text: text@,
                bold: *bold,
                align: *align,
            },
        }
    }
}

/// The lines `lines`, each as contracts speak of it.
pub open spec fn lines_data(lines: Seq<PdfLine>) -> Seq<LineData> {
    lines.map_values(|l: PdfLine| l@)
}

/// A plain line of text at the left.
pub open spec fn plain(text: Seq<char>) -> LineData {
    LineData::Text { text, bold: false, align: Align::Left }
}

/// A bold line of text at the left.
pub open spec fn bold(text: Seq<char>) -> LineData {
    LineData::Text { text, bold: true, align: Align::Left }
}

/// The pieces that the line feeds cut `text` into, in order. A carriage
/// return directly before a line feed goes with the line feed. A text without
/// a line feed is one piece; a text that ends in a line feed has an empty
/// piece at its end.
pub open spec fn pieces(text: Seq<char>) -> Seq<Seq<char>>
    decreases text.len(),
{
    if text.len() == 0 {
        seq![Seq::<char>::empty()]
    } else {
        let before = pieces(text.drop_last());
        if text.last() == '\n' {
            let ended = before.last();
            let kept = if ended.len() > 0 && ended.last() == '\r' {
                ended.drop_last()
            } else {
                ended
            };
            before.drop_last().push(kept).push(Seq::<char>::empty())
        } else {
            before.drop_last().push(before.last().push(text.last()))
        }
    }
}

/// The line that a piece of a text makes: an empty piece an empty line, any
/// other a plain line of text at the left.
pub open spec fn piece_line(piece: Seq<char>) -> LineData {
    if piece.len() == 0 {
        LineData::Gap
    } else {
        plain(piece)
    }
}

/// The lines that a text of several lines makes.
pub open spec fn multiline(text: Seq<char>) -> Seq<LineData> {
    pieces(text).map_values(|piece: Seq<char>| piece_line(piece))
}

/// Appends the line that the piece of `text` from `from` to `to` makes.
fn push_piece(out: &mut Vec<PdfLine>, text: &str, from: usize, to: usize)
    requires
        from <= to <= text@.len(),
    ensures
        lines_data(final(out)@) == lines_data(old(out)@).push(
            piece_line(text@.subrange(from as int, to as int)),
        ),
{
    if from == to {
        out.push(PdfLine::Gap);
    } else {
        let piece = text.substring_char(from, to);
        out.push(PdfLine::Text { text: piece.to_owned(), bold: false, align: Align::Left });
    }
}

/// Appends the lines that the text `text` of several lines makes: one for
/// each piece that the line feeds cut it into, an empty piece making an
/// empty line.
pub fn push_multiline(out: &mut Vec<PdfLine>, text: &str)
    ensures
        lines_data(final(out)@) == lines_data(old(out)@) + multiline(text@),
{
    let n = text.unicode_len();
    let ghost start_lines = lines_data(out@);
    let ghost mut done: Seq<Seq<char>> = Seq::empty();
    let mut from: usize = 0;
    let mut i: usize = 0;
    proof {
        assert(text@.take(0) =~= Seq::<char>::empty());
    }
    while i < n
        invariant
            n == text@.len(),
            from <= i <= n,
            pieces(text@.take(i as int)) == done.push(text@.subrange(from as int, i as int)),
            lines_data(out@) == start_lines + done.map_values(|piece: Seq<char>| piece_line(piece)),
        decreases n - i,
    {
        let c = text.get_char(i);
        proof {
            assert(text@.take(i + 1).drop_last() =~= text@.take(i as int));
        }
        if c == '\n' {
            let to = if from < i && text.get_char(i - 1) == '\r' {
                i - 1
            } else {
                i
            };
            push_piece(out, text, from, to);
            proof {
                let ended = text@.subrange(from as int, i as int);
                let kept = text@.subrange(from as int, to as int);
                assert(kept =~= (if ended.len() > 0 && ended.last() == '\r' {
                    ended.drop_last()
                } else {
                    ended
                }));
                done = done.push(kept);
                assert(text@.subrange(i + 1, i + 1) =~= Seq::<char>::empty());
            }
            from = i + 1;
        } else {
            proof {
                let so_far = text@.subrange(from as int, i as int);
                assert(so_far.push(c) =~= text@.subrange(from as int, i + 1));
            }
        }
        i += 1;
    }
    push_piece(out, text, from, n);
    proof {
        assert(text@.take(n as int) =~= text@);
    }
}

/// Appends a line of text.
fn push_text(out: &mut Vec<PdfLine>, text: String, bold: bool, align: Align)
    ensures
        lines_data(final(out)@) == lines_data(old(out)@).push(
            LineData::Text { text: text@, bold, align },
        ),
{
    out.push(PdfLine::Text { text, bold, align });
}

/// Appends an empty line.
fn push_gap(out: &mut Vec<PdfLine>)
    ensures
        lines_data(final(out)@) == lines_data(old(out)@).push(LineData::Gap),
{
    out.push(PdfLine::Gap);
}

/// The text `label` followed by `text`.
fn labelled(label: &str, text: &str) -> (line: String)
    ensures
        line@ == label@ + text@,
{
    let mut line = label.to_owned();
    line.append(text);
    line
}

/// The amount of a line: price times quantity.
fn line_amount(item: &OrderItem) -> (amount: i128)
    ensures
        amount == item.price * item.quantity,
{
    assert(-0x8000_0000_0000_0000 * 0x8000_0000 <= item.price * item.quantity
        <= 0x8000_0000_0000_0000 * 0x8000_0000) by (nonlinear_arith)
        requires
            -0x8000_0000_0000_0000 <= item.price < 0x8000_0000_0000_0000,
            -0x8000_0000 <= item.quantity < 0x8000_0000,
    ;
    (item.price as i128) * (item.quantity as i128)
}

/// The head of a ticket: the number of the order in bold, an empty line, the
/// title in bold and the date, both in the middle.
pub open spec fn head_lines(order: Order, title: Seq<char>, date: Seq<char>) -> Seq<LineData> {
    seq![
        bold("Pedido: "@ + decimal(order.order_number as int)),
        LineData::Gap,
        LineData::Text { text: title, bold: true, align: Align::Center },
        LineData::Text { text: date, bold: false, align: Align::Center },
    ]
}

/// Appends the head of a ticket.
fn push_head(out: &mut Vec<PdfLine>, order: &Order, title: &str, date: &str)
    ensures
        lines_data(final(out)@) == lines_data(old(out)@) + head_lines(*order, title@, date@),
{
    let mut number = "Pedido: ".to_owned();
    push_decimal(&mut number, order.order_number as i128);
    push_text(out, number, true, Align::Left);
    push_gap(out);
    push_text(out, title.to_owned(), true, Align::Center);
    push_text(out, date.to_owned(), false, Align::Center);
}

/// The remark of an order under its heading: an empty line, the heading in
/// bold, and the lines of the remark; nothing without a remark.
pub open spec fn remark_lines(comments: Option<String>, heading: Seq<char>) -> Seq<LineData> {
    match remark(comments) {
        Some(r) => seq![LineData::Gap, bold(heading)] + multiline(r),
        None => Seq::empty(),
    }
}

/// Appends the remark of an order under its heading.
fn push_remark(out: &mut Vec<PdfLine>, comments: &Option<String>, heading: &str)
    ensures
        lines_data(final(out)@) == lines_data(old(out)@) + remark_lines(*comments, heading@),
{
    match comments {
        Some(c) => {
            let rest = trim_text(c.as_str());
            if !rest.is_empty() {
                push_gap(out);
                push_text(out, heading.to_owned(), true, Align::Left);
                push_multiline(out, rest);
            }
        },
        None => {},
    }
}

/// The two lines of one line of an order on the client's ticket.
pub open spec fn client_item_lines(item: OrderItem) -> Seq<LineData> {
    seq![
        plain("- "@ + item.name@ + "   x"@ + decimal(item.quantity as int)),
        plain(
            "  Bs "@ + money(item.price * item.quantity) + " (c/u Bs "@ + money(item.price as int)
                + ")"@,
        ),
    ]
}

/// The lines of an order on the client's ticket.
pub open spec fn client_items_lines(items: Seq<OrderItem>) -> Seq<LineData>
    decreases items.len(),
{
    if items.len() == 0 {
        Seq::empty()
    } else {
        client_items_lines(items.drop_last()) + client_item_lines(items.last())
    }
}

/// What the client's ticket says about the cash taken, if any was.
pub open spec fn client_cash_lines(order: Order) -> Seq<LineData> {
    match order.cash_amount {
        Some(taken) => seq![
            plain(
                "Recibido: Bs "@ + money(taken as int) + "  |  Cambio: Bs "@ + money(
                    match order.cash_change {
                        Some(change) => change as int,
                        None => 0,
                    },
                ),
            ),
        ],
        None => Seq::empty(),
    }
}

/// The line `label` with the text `text` without the white space around
/// it, if anything of it is left.
pub open spec fn filled_line(label: Seq<char>, text: Option<String>) -> Seq<LineData> {
    if filled(text) {
        seq![plain(label + trimmed(text->Some_0@))]
    } else {
        Seq::empty()
    }
}

/// What the client's ticket says about the delivery, if there is one.
pub open spec fn delivery_lines(delivery: Option<DeliveryInfo>) -> Seq<LineData> {
    match delivery {
        Some(d) => seq![LineData::Gap, bold("Delivery"@), plain("Empresa: "@ + d.company@)]
            + filled_line("Dirección: "@, d.address) + filled_line("Telf: "@, d.phone),
        None => Seq::empty(),
    }
}

/// The client's ticket of `order`, dated `date`: the head; the lines of the
/// order under their heading; the total, in bold at the right; the way of
/// paying and the cash taken; the remark; the delivery.
pub open spec fn client_lines(order: Order, date: Seq<char>) -> Seq<LineData> {
    head_lines(order, "EL TITI WINGS"@, date) + seq![
        LineData::Gap,
        bold("Detalle:"@),
        LineData::Gap,
    ] + client_items_lines(order.items@) + seq![
        LineData::Gap,
        LineData::Text {
            text: "TOTAL: Bs "@ + money(order.total as int),
            bold: true,
            align: Align::Right,
        },
        LineData::Gap,
        plain("Pago: "@ + spec_payment_name(order.payment_method)),
    ] + client_cash_lines(order) + remark_lines(order.comments, "Observaciones"@) + delivery_lines(
        order.delivery,
    )
}

/// Appends the line `label` with what is left of `text` without the white
/// space around it, if anything is.
fn push_filled(out: &mut Vec<PdfLine>, label: &str, text: &Option<String>)
    ensures
        lines_data(final(out)@) == lines_data(old(out)@) + filled_line(label@, *text),
{
    match text {
        Some(t) => {
            let rest = trim_text(t.as_str());
            if !rest.is_empty() {
                push_text(out, labelled(label, rest), false, Align::Left);
            }
        },
        None => {},
    }
}

/// Appends the lines of the order as the client's ticket writes them.
fn push_client_items(out: &mut Vec<PdfLine>, order: &Order)
    ensures
        lines_data(final(out)@) == lines_data(old(out)@) + client_items_lines(order.items@),
{
    let ghost top = lines_data(out@);
    let mut i: usize = 0;
    while i < order.items.len()
        invariant
            i <= order.items@.len(),
            lines_data(out@) == top + client_items_lines(order.items@.take(i as int)),
        decreases order.items@.len() - i,
    {
        let item = &order.items[i];
        let mut name = "- ".to_owned();
        name.append(item.name.as_str());
        name.append("   x");
        push_decimal(&mut name, item.quantity as i128);
        push_text(out, name, false, Align::Left);
        let mut amount = "  Bs ".to_owned();
        push_money(&mut amount, line_amount(item));
        amount.append(" (c/u Bs ");
        push_money(&mut amount, item.price as i128);
        amount.append(")");
        push_text(out, amount, false, Align::Left);
        proof {
            assert(order.items@.take(i + 1).drop_last() =~= order.items@.take(i as int));
        }
        i += 1;
    }
    proof {
        assert(order.items@.take(order.items@.len() as int) =~= order.items@);
    }
}

/// Appends the total, in bold at the right, and the way of paying.
fn push_total(out: &mut Vec<PdfLine>, order: &Order)
    ensures
        lines_data(final(out)@) == lines_data(old(out)@) + seq![
            LineData::Gap,
            LineData::Text {
                text: "TOTAL: Bs "@ + money(order.total as int),
                bold: true,
                align: Align::Right,
            },
            LineData::Gap,
            plain("Pago: "@ + spec_payment_name(order.payment_method)),
        ],
{
    push_gap(out);
    let mut total = "TOTAL: Bs ".to_owned();
    push_money(&mut total, order.total as i128);
    push_text(out, total, true, Align::Right);
    push_gap(out);
    push_text(out, labelled("Pago: ", payment_name(order.payment_method)), false, Align::Left);
}

/// Appends what the client's ticket says about the cash taken.
fn push_cash(out: &mut Vec<PdfLine>, order: &Order)
    ensures
        lines_data(final(out)@) == lines_data(old(out)@) + client_cash_lines(*order),
{
    match order.cash_amount {
        Some(taken) => {
            let change = match order.cash_change {
                Some(change) => change,
                None => 0,
            };
            let mut cash = "Recibido: Bs ".to_owned();
            push_money(&mut cash, taken as i128);
            cash.append("  |  Cambio: Bs ");
            push_money(&mut cash, change as i128);
            push_text(out, cash, false, Align::Left);
        },
        None => {},
    }
}

/// Appends what the client's ticket says about the delivery.
fn push_delivery(out: &mut Vec<PdfLine>, delivery: &Option<DeliveryInfo>)
    ensures
        lines_data(final(out)@) == lines_data(old(out)@) + delivery_lines(*delivery),
{
    match delivery {
        Some(d) => {
            push_gap(out);
            push_text(out, "Delivery".to_owned(), true, Align::Left);
            push_text(out, labelled("Empresa: ", d.company.as_str()), false, Align::Left);
            push_filled(out, "Dirección: ", &d.address);
            push_filled(out, "Telf: ", &d.phone);
        },
        None => {},
    }
}

/// The lines of the client's ticket of `order`, dated `date`, for a page
/// printer.
pub fn render_ticket_pdf_client(order: &Order, date: &str) -> (lines: Vec<PdfLine>)
    ensures
        lines_data(lines@) == client_lines(*order, date@),
{
    let mut out: Vec<PdfLine> = Vec::new();
    push_head(&mut out, order, "EL TITI WINGS", date);
    push_gap(&mut out);
    push_text(&mut out, "Detalle:".to_owned(), true, Align::Left);
    push_gap(&mut out);
    push_client_items(&mut out, order);
    push_total(&mut out, order);
    push_cash(&mut out, order);
    push_remark(&mut out, &order.comments, "Observaciones");
    push_delivery(&mut out, &order.delivery);
    out
}

/// The character `c` with a capital letter of the basic alphabet made small.
pub open spec fn ascii_small(c: char) -> char {
    if 'A' <= c && c <= 'Z' {
        ((c as u32) + 32) as char
    } else {
        c
    }
}

/// Whether two texts are the same but for the case of the letters of the
/// basic alphabet.
pub open spec fn same_but_ascii_case(a: Seq<char>, b: Seq<char>) -> bool {
    a.len() == b.len() && forall|i: int|
        0 <= i < a.len() ==> ascii_small(#[trigger] a[i]) == ascii_small(b[i])
}

/// Asks `str::eq_ignore_ascii_case` whether two texts are the same but for
/// the case of the letters of the basic alphabet.
#[verifier::external_body]
pub(crate) fn same_ignoring_ascii_case(a: &str, b: &str) -> (same: bool)
    ensures
        same == same_but_ascii_case(a@, b@),
{
    a.eq_ignore_ascii_case(b)
}

/// The category of the line at `i`, if one is given for it.
pub open spec fn category_at(categories: Seq<String>, i: int) -> Option<Seq<char>> {
    if 0 <= i < categories.len() {
        Some(categories[i]@)
    } else {
        None
    }
}

/// Whether the line at `i` is of the category `category`, whatever the case.
pub open spec fn of_category(categories: Seq<String>, i: int, category: Seq<char>) -> bool {
    category_at(categories, i) matches Some(c) && same_but_ascii_case(c, category)
}

/// The lines of the order that are of the category `category`, each as the
/// kitchen's ticket writes it, in bold.
pub open spec fn group_items(items: Seq<OrderItem>, categories: Seq<String>, category: Seq<char>) -> Seq<
    LineData,
>
    decreases items.len(),
{
    if items.len() == 0 {
        Seq::empty()
    } else {
        let before = group_items(items.drop_last(), categories, category);
        if of_category(categories, items.len() - 1, category) {
            before.push(
                bold("• "@ + items.last().name@ + "   x"@ + decimal(items.last().quantity as int)),
            )
        } else {
            before
        }
    }
}

/// The lines of the order that are of the category `category` under the
/// name of the category: an empty line, the name in bold, and the lines;
/// nothing if no line is of the category.
pub open spec fn group_lines(items: Seq<OrderItem>, categories: Seq<String>, category: Seq<char>) -> Seq<
    LineData,
> {
    let lines = group_items(items, categories, category);
    if lines.len() > 0 {
        seq![LineData::Gap, bold(category)] + lines
    } else {
        Seq::empty()
    }
}

/// The kitchen's ticket of `order`, dated `date`: the head; the lines of
/// the order by category, the food first, then the extras, then the drinks;
/// the remark. A line of another category, or of none, is not on it.
pub open spec fn kitchen_lines(order: Order, categories: Seq<String>, date: Seq<char>) -> Seq<
    LineData,
> {
    head_lines(order, "COCINA"@, date) + group_lines(order.items@, categories, "COMIDA"@)
        + group_lines(order.items@, categories, "EXTRAS"@) + group_lines(
        order.items@,
        categories,
        "BEBIDA"@,
    ) + remark_lines(order.comments, "OBSERVACIONES"@)
}

/// Appends the lines of the order that are of the category `category`,
/// under the name of the category.
fn push_group(out: &mut Vec<PdfLine>, order: &Order, categories: &Vec<String>, category: &str)
    ensures
        lines_data(final(out)@) == lines_data(old(out)@) + group_lines(
            order.items@,
            categories@,
            category@,
        ),
{
    let ghost top = lines_data(out@);
    let mut any = false;
    let mut i: usize = 0;
    while i < order.items.len()
        invariant
            i <= order.items@.len(),
            any == (group_items(order.items@.take(i as int), categories@, category@).len() > 0),
            lines_data(out@) == top + group_lines(
                order.items@.take(i as int),
                categories@,
                category@,
            ),
        decreases order.items@.len() - i,
    {
        let item = &order.items[i];
        proof {
            assert(order.items@.take(i + 1).drop_last() =~= order.items@.take(i as int));
        }
        if i < categories.len() && same_ignoring_ascii_case(categories[i].as_str(), category) {
            if !any {
                push_gap(out);
                push_text(out, category.to_owned(), true, Align::Left);
                any = true;
            }
            let mut line = "• ".to_owned();
            line.append(item.name.as_str());
            line.append("   x");
            push_decimal(&mut line, item.quantity as i128);
            push_text(out, line, true, Align::Left);
        }
        i += 1;
    }
    proof {
        assert(order.items@.take(order.items@.len() as int) =~= order.items@);
    }
}

/// The lines of the kitchen's ticket of `order`, dated `date`, for a page
/// printer. `categories` holds, for each line of the order in order, the
/// category of the line's product.
pub fn render_ticket_pdf_kitchen(order: &Order, categories: &Vec<String>, date: &str) -> (lines:
    Vec<PdfLine>)
    ensures
        lines_data(lines@) == kitchen_lines(*order, categories@, date@),
{
    let mut out: Vec<PdfLine> = Vec::new();
    push_head(&mut out, order, "COCINA", date);
    push_group(&mut out, order, categories, "COMIDA");
    push_group(&mut out, order, categories, "EXTRAS");
    push_group(&mut out, order, categories, "BEBIDA");
    push_remark(&mut out, &order.comments, "OBSERVACIONES");
    out
}

} // verus!
