//! Receipts: the text that is shown for an order, for the client and for
//! the kitchen.

use vstd::prelude::*;
use vstd::string::StringExecFns;
use crate::db::{DeliveryInfo, Order, OrderItem, PaymentMethod};
use crate::text::{
    decimal, decimal_text, money, padded_left, padded_right, push_decimal, push_money,
    push_padded_left, push_padded_right,
};

verus! {

/// How a way of paying is written on a receipt.
pub open spec fn spec_method_name(method: PaymentMethod) -> Seq<char> {
    match method {
        PaymentMethod::CASH => "CASH"@,
        PaymentMethod::CARD => "CARD"@,
        PaymentMethod::QR => "QR"@,
    }
}

/// How a way of paying is written on a receipt.
pub fn method_name(method: PaymentMethod) -> (name: &'static str)
    ensures
        name@ == spec_method_name(method),
{
    match method {
        PaymentMethod::CASH => "CASH",
        PaymentMethod::CARD => "CARD",
        PaymentMethod::QR => "QR",
    }
}

/// The amount `minor` or, where there is none, nothing.
pub open spec fn or_nothing(minor: Option<i64>) -> int {
    match minor {
        Some(m) => m as int,
        None => 0,
    }
}

/// The line of one line of an order on the client's receipt: the name in
/// eighteen columns, the quantity in three, and the amount.
pub open spec fn customer_line(item: OrderItem) -> Seq<char> {
    padded_left(item.name@, 18) + " "@ + padded_right(decimal(item.quantity as int), 3) + "  $"@
        + money(item.price * item.quantity) + "\n"@
}

/// The lines of an order on the client's receipt.
pub open spec fn customer_lines(items: Seq<OrderItem>) -> Seq<char>
    decreases items.len(),
{
    if items.len() == 0 {
        Seq::empty()
    } else {
        customer_lines(items.drop_last()) + customer_line(items.last())
    }
}

/// What the client's receipt says of the cash: what was handed over and the
/// change, for an order paid in cash.
pub open spec fn customer_cash(order: Order) -> Seq<char> {
    if order.payment_method == PaymentMethod::CASH {
        "--------------------------------\n"@ + "EFECTIVO: $"@ + money(or_nothing(order.cash_amount))
            + "\n"@ + "CAMBIO: $"@ + money(or_nothing(order.cash_change)) + "\n"@
    } else {
        Seq::empty()
    }
}

/// The line `label` with `text`, if there is a text.
pub open spec fn labelled(label: Seq<char>, text: Option<String>) -> Seq<char> {
    match text {
        Some(t) => label + t@ + "\n"@,
        None => Seq::empty(),
    }
}

/// What the client's receipt says of the delivery.
pub open spec fn customer_delivery(delivery: Option<DeliveryInfo>) -> Seq<char> {
    match delivery {
        Some(d) => "Delivery: "@ + d.company@ + "\n"@ + labelled("Dirección: "@, d.address) + labelled(
            "Teléfono: "@,
            d.phone,
        ),
        None => Seq::empty(),
    }
}

/// The head of a receipt: the title between two rules, the number of the
/// order and its date, a rule, the names of the columns, and a rule.
pub open spec fn receipt_head(title: Seq<char>, columns: Seq<char>, order: Order, date: Seq<char>) -> Seq<
    char,
> {
    "================================\n"@ + title + "================================\n"@
        + "Pedido #: "@ + decimal(order.order_number as int) + "\n"@ + "Fecha: "@ + date + "\n"@
        + "--------------------------------\n"@ + columns + "--------------------------------\n"@
}

/// The client's receipt of `order`, dated `date`.
pub open spec fn customer_receipt(order: Order, date: Seq<char>) -> Seq<char> {
    receipt_head("         EL TITI WINGS         \n"@, "PRODUCTO           CANT  PRECIO\n"@, order, date)
        + customer_lines(order.items@) + "--------------------------------\n"@ + "TOTAL: $"@ + money(
        order.total as int,
    ) + "\n"@ + customer_cash(order) + "--------------------------------\n"@ + "Método de pago: "@
        + spec_method_name(order.payment_method) + "\n"@ + customer_delivery(order.delivery)
        + labelled("Comentarios: "@, order.comments) + "================================\n"@
        + "      ¡Gracias por su compra!   \n"@ + "================================\n"@
}

/// The line of one line of an order on the kitchen's receipt.
pub open spec fn kitchen_line(item: OrderItem) -> Seq<char> {
    padded_left(item.name@, 18) + " "@ + padded_right(decimal(item.quantity as int), 3) + "\n"@
}

/// The lines of an order on the kitchen's receipt.
pub open spec fn kitchen_lines(items: Seq<OrderItem>) -> Seq<char>
    decreases items.len(),
{
    if items.len() == 0 {
        Seq::empty()
    } else {
        kitchen_lines(items.drop_last()) + kitchen_line(items.last())
    }
}

/// What the kitchen's receipt says of the delivery.
pub open spec fn kitchen_delivery(delivery: Option<DeliveryInfo>) -> Seq<char> {
    match delivery {
        Some(d) => "Para delivery: "@ + d.company@ + "\n"@,
        None => Seq::empty(),
    }
}

/// The kitchen's receipt of `order`, dated `date`.
pub open spec fn kitchen_receipt(order: Order, date: Seq<char>) -> Seq<char> {
    receipt_head("         COCINA - PEDIDO        \n"@, "PRODUCTO           CANT  NOTAS\n"@, order, date)
        + kitchen_lines(order.items@) + "--------------------------------\n"@ + kitchen_delivery(
        order.delivery,
    ) + labelled("Comentarios: "@, order.comments) + "================================\n"@
}

/// Appends the head of a receipt.
fn push_head(out: &mut String, title: &str, columns: &str, order: &Order, date: &str)
    ensures
        final(out)@ == old(out)@ + receipt_head(title@, columns@, *order, date@),
{
    out.append("================================\n");
    out.append(title);
    out.append("================================\n");
    out.append("Pedido #: ");
    push_decimal(out, order.order_number as i128);
    out.append("\n");
    out.append("Fecha: ");
    out.append(date);
    out.append("\n");
    out.append("--------------------------------\n");
    out.append(columns);
    out.append("--------------------------------\n");
}

/// Appends the line `label` with `text`, if there is a text.
fn push_labelled(out: &mut String, label: &str, text: &Option<String>)
    ensures
        final(out)@ == old(out)@ + labelled(label@, *text),
{
    match text {
        Some(t) => {
            out.append(label);
            out.append(t.as_str());
            out.append("\n");
        },
        None => {},
    }
}

/// Appends the name of a line in eighteen columns and its quantity in
/// three.
fn push_name_and_quantity(out: &mut String, item: &OrderItem)
    ensures
        final(out)@ == old(out)@ + padded_left(item.name@, 18) + " "@ + padded_right(
            decimal(item.quantity as int),
            3,
        ),
{
    push_padded_left(out, item.name.as_str(), 18);
    out.append(" ");
    let quantity = decimal_text(item.quantity as i128);
    push_padded_right(out, quantity.as_str(), 3);
}

/// The amount of a line: price times quantity.
fn line_amount(item: &OrderItem) -> (amount: i128)
    ensures
        amount == item.price * item.quantity,
{
    assert(-0x8000_0000_0000_0000 * 0x8000_0000 <= item.price * item.quantity
        <= 0x8000_0000_0000_0000 * 0x8000_0000) by (nonlinear_arith)
        requires
            -0x8000_0000_0000_0000 <= item.price < 0x8000_0000_0000_0000,
            -0x8000_0000 <= item.quantity < 0x8000_0000,
    ;
    (item.price as i128) * (item.quantity as i128)
}

/// The client's receipt of `order`, dated `date`: the head, a line for each
/// line of the order with its amount, the total, the cash handed over and the
/// change for an order paid in cash, the way of paying, the delivery, the
/// comments, and the thanks.
pub fn generate_customer_receipt(order: &Order, date: &str) -> (receipt: String)
    ensures
        receipt@ == customer_receipt(*order, date@),
{
    let mut out = String::new();
    push_head(
        &mut out,
        "         EL TITI WINGS         \n",
        "PRODUCTO           CANT  PRECIO\n",
        order,
        date,
    );
    let ghost head = out@;
    let mut i: usize = 0;
    while i < order.items.len()
        invariant
            i <= order.items@.len(),
            out@ == head + customer_lines(order.items@.take(i as int)),
        decreases order.items@.len() - i,
    {
        let item = &order.items[i];
        push_name_and_quantity(&mut out, item);
        out.append("  $");
        push_money(&mut out, line_amount(item));
        out.append("\n");
        proof {
            assert(order.items@.take(i + 1).drop_last() =~= order.items@.take(i as int));
        }
        i += 1;
    }
    proof {
        assert(order.items@.take(order.items@.len() as int) =~= order.items@);
    }
    out.append("--------------------------------\n");
    out.append("TOTAL: $");
    push_money(&mut out, order.total as i128);
    out.append("\n");
    let ghost totalled = out@;
    if order.payment_method == PaymentMethod::CASH {
        let taken = match order.cash_amount {
            Some(a) => a,
            None => 0,
        };
        let change = match order.cash_change {
            Some(c) => c,
            None => 0,
        };
        out.append("--------------------------------\n");
        out.append("EFECTIVO: $");
        push_money(&mut out, taken as i128);
        out.append("\n");
        out.append("CAMBIO: $");
        push_money(&mut out, change as i128);
        out.append("\n");
        assert(out@ =~= totalled + customer_cash(*order));
    }
    out.append("--------------------------------\n");
    out.append("Método de pago: ");
    out.append(method_name(order.payment_method));
    out.append("\n");
    let ghost paid = out@;
    match &order.delivery {
        Some(d) => {
            out.append("Delivery: ");
            out.append(d.company.as_str());
            out.append("\n");
            push_labelled(&mut out, "Dirección: ", &d.address);
            push_labelled(&mut out, "Teléfono: ", &d.phone);
        },
        None => {
            assert(out@ =~= paid + customer_delivery(order.delivery));
        },
    }
    push_labelled(&mut out, "Comentarios: ", &order.comments);
    out.append("================================\n");
    out.append("      ¡Gracias por su compra!   \n");
    out.append("================================\n");
    out
}

/// The kitchen's receipt of `order`, dated `date`: the head, a line for each
/// line of the order, the delivery and the comments.
pub fn generate_kitchen_receipt(order: &Order, date: &str) -> (receipt: String)
    ensures
        receipt@ == kitchen_receipt(*order, date@),
{
    let mut out = String::new();
    push_head(
        &mut out,
        "         COCINA - PEDIDO        \n",
        "PRODUCTO           CANT  NOTAS\n",
        order,
        date,
    );
    let ghost head = out@;
    let mut i: usize = 0;
    while i < order.items.len()
        invariant
            i <= order.items@.len(),
            out@ == head + kitchen_lines(order.items@.take(i as int)),
        decreases order.items@.len() - i,
    {
        let item = &order.items[i];
        push_name_and_quantity(&mut out, item);
        out.append("\n");
        proof {
            assert(order.items@.take(i + 1).drop_last() =~= order.items@.take(i as int));
        }
        i += 1;
    }
    proof {
        assert(order.items@.take(order.items@.len() as int) =~= order.items@);
    }
    out.append("--------------------------------\n");
    match &order.delivery {
        Some(d) => {
            out.append("Para delivery: ");
            out.append(d.company.as_str());
            out.append("\n");
        },
        None => {},
    }
    push_labelled(&mut out, "Comentarios: ", &order.comments);
    out.append("================================\n");
    out
}

} // verus!
