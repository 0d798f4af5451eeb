use restaurant_pos::db::{DeliveryInfo, Order, OrderItem, OrderStatus, PaymentMethod};
use restaurant_pos::layout::{
    push_multiline, render_ticket_pdf_client, render_ticket_pdf_kitchen, Align, PdfLine,
};

fn item(name: &str, price: i64, quantity: i32) -> OrderItem {
    OrderItem { product_id: "65a0000000000000000000c1".to_string(), name: name.to_string(), price, quantity }
}

fn order(items: Vec<OrderItem>, method: PaymentMethod) -> Order {
    let total = items.iter().map(|i| i.price * i.quantity as i64).sum();
    Order {
        id: "65a0000000000000000000b1".to_string(),
        tenant_id: "T1".to_string(),
        branch_id: "B1".to_string(),
        order_number: 12,
        items,
        total,
        payment_method: method,
        cash_amount: None,
        cash_change: None,
        delivery: None,
        comments: None,
        status: OrderStatus::PENDING,
        created_at: 0,
        updated_at: 0,
    }
}

fn show(lines: &[PdfLine]) -> Vec<String> {
    lines
        .iter()
        .map(|l| match l {
            PdfLine::Gap => "~".to_string(),
            PdfLine::Text { text, bold, align } => format!(
                "{}{}{}",
                match align {
                    Align::Left => "<",
                    Align::Center => "|",
                    Align::Right => ">",
                },
                if *bold { "*" } else { " " },
                text
            ),
        })
        .collect()
}

fn split_with_std(text: &str) -> Vec<String> {
    text.replace("\r\n", "\n")
        .split('\n')
        .map(|line| if line.is_empty() { "~".to_string() } else { format!("< {}", line) })
        .collect()
}

#[test]
fn texts_are_cut_at_line_feeds() {
    for text in [
        "",
        "a",
        "a\nb",
        "a\r\nb",
        "a\n\nb",
        "a\r\n\r\nb",
        "\n",
        "\r\n",
        "\r",
        "a\r",
        "a\rb\n",
        "x\r\r\ny",
        "\n\r\n",
        "uno\ndos\r\ntres\n",
        "ñandú\r\n¡sí!",
        "\r\n\r\n\r\n",
        "a\n\rb",
    ] {
        let mut out = vec![PdfLine::Gap];
        push_multiline(&mut out, text);
        let mut want = vec!["~".to_string()];
        want.extend(split_with_std(text));
        assert_eq!(show(&out), want, "{:?}", text);
    }
}

#[test]
fn client_lines_are_exact() {
    let mut o = order(vec![item("Alitas BBQ", 2550, 2), item("Soda", 800, 1)], PaymentMethod::CASH);
    o.cash_amount = Some(10000);
    o.cash_change = Some(4100);
    o.comments = Some("  sin picante\r\n\r\ngracias \n".to_string());
    o.delivery = Some(DeliveryInfo {
        company: "Yango".into(),
        address: Some("  Calle 1 ".into()),
        phone: Some("   ".into()),
    });
    let want = vec![
        "<*Pedido: 12",
        "~",
        "|*EL TITI WINGS",
        "| 09/03/2025 12:30",
        "~",
        "<*Detalle:",
        "~",
        "< - Alitas BBQ   x2",
        "<   Bs 51.00 (c/u Bs 25.50)",
        "< - Soda   x1",
        "<   Bs 8.00 (c/u Bs 8.00)",
        "~",
        ">*TOTAL: Bs 59.00",
        "~",
        "< Pago: EFECTIVO",
        "< Recibido: Bs 100.00  |  Cambio: Bs 41.00",
        "~",
        "<*Observaciones",
        "< sin picante",
        "~",
        "< gracias",
        "~",
        "<*Delivery",
        "< Empresa: Yango",
        "< Dirección: Calle 1",
    ];
    assert_eq!(show(&render_ticket_pdf_client(&o, "09/03/2025 12:30")), want);
}

#[test]
fn client_lines_of_a_bare_order() {
    let o = order(vec![], PaymentMethod::QR);
    let want = vec![
        "<*Pedido: 12",
        "~",
        "|*EL TITI WINGS",
        "| hoy",
        "~",
        "<*Detalle:",
        "~",
        "~",
        ">*TOTAL: Bs 0.00",
        "~",
        "< Pago: QR",
    ];
    assert_eq!(show(&render_ticket_pdf_client(&o, "hoy")), want);
}

#[test]
fn kitchen_lines_group_by_category() {
    let mut o = order(
        vec![item("Soda", 800, 1), item("Alitas", 2550, 2), item("Salsa", 100, 3), item("Papas", 900, 1), item("Pan", 1, 1), item("Agua", 1, 4)],
        PaymentMethod::CARD,
    );
    o.comments = Some("rápido".to_string());
    let cats: Vec<String> =
        ["bebida", "COMIDA", "Extras", "comida", "POSTRE"].iter().map(|c| c.to_string()).collect();
    let want = vec![
        "<*Pedido: 12",
        "~",
        "|*COCINA",
        "| hoy",
        "~",
        "<*COMIDA",
        "<*• Alitas   x2",
        "<*• Papas   x1",
        "~",
        "<*EXTRAS",
        "<*• Salsa   x3",
        "~",
        "<*BEBIDA",
        "<*• Soda   x1",
        "~",
        "<*OBSERVACIONES",
        "< rápido",
    ];
    assert_eq!(show(&render_ticket_pdf_kitchen(&o, &cats, "hoy")), want);
    let none = render_ticket_pdf_kitchen(&order(vec![item("Soda", 1, 1)], PaymentMethod::CARD), &vec![], "hoy");
    assert_eq!(show(&none), vec!["<*Pedido: 12", "~", "|*COCINA", "| hoy"]);
    let accented = render_ticket_pdf_kitchen(
        &order(vec![item("Soda", 1, 1)], PaymentMethod::CARD),
        &vec!["BEBIDÁ".to_string()],
        "hoy",
    );
    assert_eq!(show(&accented).len(), 4);
}
