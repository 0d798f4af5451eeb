//! The documents of the point of sale, and the views handed to the client.
//!
//! Identifiers are written as hexadecimal text, moments as milliseconds since
//! the epoch, and money as whole minor units of the currency.

use vstd::prelude::*;
use vstd::std_specs::convert::FromSpecImpl;
use crate::auth::{argon2_accepts, hash_password};
use crate::error::PosError;
use crate::state::Role;
use crate::text::{new_object_id, spec_is_object_id};

verus! {

/// The whole seconds in `millis` milliseconds, rounded towards the past.
pub open spec fn spec_millis_to_secs(millis: i64) -> i64 {
    (millis as int / 1000) as i64
}

/// The whole seconds in `millis` milliseconds, rounded towards the past.
#[verifier::when_used_as_spec(spec_millis_to_secs)]
pub fn millis_to_secs(millis: i64) -> (secs: i64)
    ensures
        secs == spec_millis_to_secs(millis),
        secs * 1000 <= millis < secs * 1000 + 1000,
{
    if millis >= 0 {
        millis / 1000
    } else {
        (millis + 1) / 1000 - 1
    }
}

/// A user as stored.
#[derive(Debug)]
pub struct User {
    pub id: String,
    pub tenant_id: String,
    pub branch_id: String,
    pub name: String,
    pub username: String,
    pub role: Role,
    pub active: bool,
    pub password_hash: String,
    pub created_at: i64,
    pub updated_at: i64,
}

/// What is asked for to create a user.
#[derive(Debug)]
pub struct NewUser {
    pub tenant_id: String,
    pub branch_id: String,
    pub name: String,
    pub username: String,
    pub role: Role,
    pub password: String,
    pub active: bool,
}

/// The fields of a user that a change may set; an absent one is kept.
#[derive(Debug)]
pub struct UpdateUser {
    pub name: Option<String>,
    pub username: Option<String>,
    pub role: Option<Role>,
    pub active: Option<bool>,
    pub new_password: Option<String>,
}

impl Default for UpdateUser {
    fn default() -> (changes: UpdateUser)
        ensures
            changes.name is None,
            changes.username is None,
            changes.role is None,
            changes.active is None,
            changes.new_password is None,
    {
        UpdateUser { name: None, username: None, role: None, active: None, new_password: None }
    }
}

/// A user as shown: without the password hash, moments in seconds.
#[derive(Debug)]
pub struct UserView {
    pub id: String,
    pub tenant_id: String,
    pub branch_id: String,
    pub name: String,
    pub username: String,
    pub role: Role,
    pub active: bool,
    pub created_at: i64,
    pub updated_at: i64,
}

impl From<User> for UserView {
    fn from(u: User) -> (view: UserView) {
        UserView {
            id: u.id,
            tenant_id: u.tenant_id,
            branch_id: u.branch_id,
            name: u.name,
            username: u.username,
            role: u.role,
            active: u.active,
            created_at: millis_to_secs(u.created_at),
            updated_at: millis_to_secs(u.updated_at),
        }
    }
}

impl FromSpecImpl<User> for UserView {
    open spec fn obeys_from_spec() -> bool {
        true
    }

    open spec fn from_spec(u: User) -> UserView {
        UserView {
            id: u.id,
            tenant_id: u.tenant_id,
            branch_id: u.branch_id,
            name: u.name,
            username: u.username,
            role: u.role,
            active: u.active,
            created_at: spec_millis_to_secs(u.created_at),
            updated_at: spec_millis_to_secs(u.updated_at),
        }
    }
}

/// A product as stored.
#[derive(Debug)]
pub struct Product {
    pub id: String,
    pub tenant_id: String,
    pub branch_id: String,
    pub name: String,
    pub photo_base64: String,
    /// What it costs to make.
    pub cost: i64,
    /// What it sells for.
    pub price: i64,
    pub description: String,
    pub category: String,
    pub created_at: i64,
    pub updated_at: i64,
}

/// What is asked for to create a product.
#[derive(Debug)]
pub struct NewProduct {
    pub tenant_id: String,
    pub branch_id: String,
    pub name: String,
    pub photo_base64: String,
    pub cost: i64,
    pub price: i64,
    pub description: String,
    pub category: String,
}

/// The fields of a product that a change may set; an absent one is kept.
#[derive(Debug)]
pub struct UpdateProduct {
    pub name: Option<String>,
    pub photo_base64: Option<String>,
    pub cost: Option<i64>,
    pub price: Option<i64>,
    pub description: Option<String>,
    pub category: Option<String>,
}

impl Default for UpdateProduct {
    fn default() -> (changes: UpdateProduct)
        ensures
            changes.name is None,
            changes.photo_base64 is None,
            changes.cost is None,
            changes.price is None,
            changes.description is None,
            changes.category is None,
    {
        UpdateProduct {
            name: None,
            photo_base64: None,
            cost: None,
            price: None,
            description: None,
            category: None,
        }
    }
}

/// A product as shown: moments in seconds.
#[derive(Debug)]
pub struct ProductView {
    pub id: String,
    pub tenant_id: String,
    pub branch_id: String,
    pub name: String,
    pub photo_base64: String,
    pub cost: i64,
    pub price: i64,
    pub description: String,
    pub category: String,
    pub created_at: i64,
    pub updated_at: i64,
}

impl From<Product> for ProductView {
    fn from(p: Product) -> (view: ProductView) {
        ProductView {
            id: p.id,
            tenant_id: p.tenant_id,
            branch_id: p.branch_id,
            name: p.name,
            photo_base64: p.photo_base64,
            cost: p.cost,
            price: p.price,
            description: p.description,
            category: p.category,
            created_at: millis_to_secs(p.created_at),
            updated_at: millis_to_secs(p.updated_at),
        }
    }
}

impl FromSpecImpl<Product> for ProductView {
    open spec fn obeys_from_spec() -> bool {
        true
    }

    open spec fn from_spec(p: Product) -> ProductView {
        ProductView {
            id: p.id,
            tenant_id: p.tenant_id,
            branch_id: p.branch_id,
            name: p.name,
            photo_base64: p.photo_base64,
            cost: p.cost,
            price: p.price,
            description: p.description,
            category: p.category,
            created_at: spec_millis_to_secs(p.created_at),
            updated_at: spec_millis_to_secs(p.updated_at),
        }
    }
}

/// How an order is paid.
#[derive(Debug, Clone, Copy, PartialEq, Eq, Structural)]
pub enum PaymentMethod {
    CASH,
    CARD,
    QR,
}

/// Where an order stands.
#[allow(non_camel_case_types)]
#[derive(Debug, Clone, Copy, PartialEq, Eq, Structural)]
pub enum OrderStatus {
    PENDING,
    IN_PROGRESS,
    READY,
    DELIVERED,
    CANCELLED,
}

/// One line of an order: a product at the price it had when ordered.
#[derive(Debug)]
pub struct OrderItem {
    pub product_id: String,
    pub name: String,
    pub price: i64,
    pub quantity: i32,
}

/// Where an order is delivered to.
#[derive(Debug)]
pub struct DeliveryInfo {
    pub company: String,
    pub address: Option<String>,
    pub phone: Option<String>,
}

/// An order as stored.
#[derive(Debug)]
pub struct Order {
    pub id: String,
    pub tenant_id: String,
    pub branch_id: String,
    /// The number of the order within its tenant, branch and day.
    pub order_number: i32,
    pub items: Vec<OrderItem>,
    pub total: i64,
    pub payment_method: PaymentMethod,
    pub cash_amount: Option<i64>,
    pub cash_change: Option<i64>,
    pub delivery: Option<DeliveryInfo>,
    pub comments: Option<String>,
    pub status: OrderStatus,
    pub created_at: i64,
    pub updated_at: i64,
}

/// One line of an order that is being placed.
#[derive(Debug)]
pub struct NewOrderItem {
    pub product_id: String,
    pub quantity: i32,
}

/// Where an order that is being placed is delivered to.
#[derive(Debug)]
pub struct NewDeliveryInfo {
    pub company: String,
    pub address: Option<String>,
    pub phone: Option<String>,
}

/// What is asked for to place an order.
#[derive(Debug)]
pub struct NewOrder {
    pub tenant_id: String,
    pub branch_id: String,
    pub items: Vec<NewOrderItem>,
    pub payment_method: PaymentMethod,
    pub cash_amount: Option<i64>,
    pub delivery: Option<NewDeliveryInfo>,
    pub comments: Option<String>,
}

/// The fields of an order that a change may set; an absent one is kept.
#[derive(Debug)]
pub struct UpdateOrder {
    pub status: Option<OrderStatus>,
    pub comments: Option<String>,
}

impl Default for UpdateOrder {
    fn default() -> (changes: UpdateOrder)
        ensures
            changes.status is None,
            changes.comments is None,
    {
        UpdateOrder { status: None, comments: None }
    }
}

/// One line of an order as shown, with the amount of the line.
#[derive(Debug)]
pub struct OrderItemView {
    pub product_id: String,
    pub name: String,
    pub price: i64,
    pub quantity: i32,
    /// Price times quantity. It is wide enough for every price and quantity.
    pub subtotal: i128,
}

/// A delivery as shown.
#[derive(Debug)]
pub struct DeliveryInfoView {
    pub company: String,
    pub address: Option<String>,
    pub phone: Option<String>,
}

/// An order as shown: moments in seconds, each line with its amount.
#[derive(Debug)]
pub struct OrderView {
    pub id: String,
    pub tenant_id: String,
    pub branch_id: String,
    pub order_number: i32,
    pub items: Vec<OrderItemView>,
    pub total: i64,
    pub payment_method: PaymentMethod,
    pub cash_amount: Option<i64>,
    pub cash_change: Option<i64>,
    pub delivery: Option<DeliveryInfoView>,
    pub comments: Option<String>,
    pub status: OrderStatus,
    pub created_at: i64,
    pub updated_at: i64,
}

/// The line `item` as shown.
pub open spec fn spec_item_view(item: OrderItem) -> OrderItemView {
    OrderItemView {
        product_id: item.product_id,
        name: item.name,
        price: item.price,
        quantity: item.quantity,
        subtotal: (item.price * item.quantity) as i128,
    }
}

/// The delivery `delivery` as shown.
pub open spec fn spec_delivery_view(delivery: Option<DeliveryInfo>) -> Option<DeliveryInfoView> {
    match delivery {
        Some(d) => Some(DeliveryInfoView { company: d.company, address: d.address, phone: d.phone }),
        None => None,
    }
}

/// Whether `view` shows the order `o`: every field is carried over, moments
/// are in seconds, and each line has its amount.
pub open spec fn shows_order(view: OrderView, o: Order) -> bool {
    &&& view.id == o.id
    &&& view.tenant_id == o.tenant_id
    &&& view.branch_id == o.branch_id
    &&& view.order_number == o.order_number
    &&& view.items@ == o.items@.map_values(|item: OrderItem| spec_item_view(item))
    &&& view.total == o.total
    &&& view.payment_method == o.payment_method
    &&& view.cash_amount == o.cash_amount
    &&& view.cash_change == o.cash_change
    &&& view.delivery == spec_delivery_view(o.delivery)
    &&& view.comments == o.comments
    &&& view.status == o.status
    &&& view.created_at == spec_millis_to_secs(o.created_at)
    &&& view.updated_at == spec_millis_to_secs(o.updated_at)
}

/// The order `o` as shown to the client.
pub fn order_view(o: Order) -> (view: OrderView)
    ensures
        shows_order(view, o),
{
    let ghost lines = o.items@;
    let mut source = o.items;
    let mut items: Vec<OrderItemView> = Vec::new();
    // Lines are taken from the back and put in front, so the order is kept.
    while source.len() > 0
        invariant
            source@.len() + items@.len() == lines.len(),
            source@ == lines.take(source@.len() as int),
            forall|k: int|
                0 <= k < items@.len() ==> #[trigger] items@[k] == spec_item_view(
                    lines[source@.len() + k],
                ),
        decreases source@.len(),
    {
        let item = source.pop().unwrap();
        assert(item.price * item.quantity >= -0x8000_0000_0000_0000 * 0x8000_0000
            && item.price * item.quantity <= 0x8000_0000_0000_0000 * 0x8000_0000)
            by (nonlinear_arith)
            requires
                -0x8000_0000_0000_0000 <= item.price < 0x8000_0000_0000_0000,
                -0x8000_0000 <= item.quantity < 0x8000_0000,
        ;
        let subtotal: i128 = (item.price as i128) * (item.quantity as i128);
        items.insert(
            0,
            OrderItemView {
                product_id: item.product_id,
                name: item.name,
                price: item.price,
                quantity: item.quantity,
                subtotal,
            },
        );
    }
    assert(items@ =~= lines.map_values(|item: OrderItem| spec_item_view(item)));
    let delivery = match o.delivery {
        Some(d) => Some(DeliveryInfoView { company: d.company, address: d.address, phone: d.phone }),
        None => None,
    };
    OrderView {
        id: o.id,
        tenant_id: o.tenant_id,
        branch_id: o.branch_id,
        order_number: o.order_number,
        items,
        total: o.total,
        payment_method: o.payment_method,
        cash_amount: o.cash_amount,
        cash_change: o.cash_change,
        delivery,
        comments: o.comments,
        status: o.status,
        created_at: millis_to_secs(o.created_at),
        updated_at: millis_to_secs(o.updated_at),
    }
}

impl From<Order> for OrderView {
    fn from(o: Order) -> (view: OrderView)
        ensures
            shows_order(view, o),
    {
        order_view(o)
    }
}

impl FromSpecImpl<Order> for OrderView {
    /// The conversion is stated by `shows_order`, which speaks of the lines
    /// by what they hold; it is not stated as an equation between views.
    open spec fn obeys_from_spec() -> bool {
        false
    }

    open spec fn from_spec(o: Order) -> OrderView {
        choose|view: OrderView| shows_order(view, o)
    }
}

/// Whether `user` is the administrator that a store without users is given:
/// active, named `admin`, of the first tenant and branch, created at `now`.
pub open spec fn is_default_admin(user: User, now: i64) -> bool {
    &&& user.tenant_id@ == "ELTITI1"@
    &&& user.branch_id@ == "SUCURSAL1"@
    &&& user.name@ == "Administrador"@
    &&& user.username@ == "admin"@
    &&& user.role == Role::ADMIN
    &&& user.active
    &&& user.created_at == now
    &&& user.updated_at == now
}

/// The administrator to store in a store that has `user_count` users: none
/// if it has any, and otherwise the user `admin` with the password
/// `admin123`, under a newly made identifier, with a hash that Argon2 accepts
/// for that password. If the hasher does not take the password, the request
/// is refused with `PasswordRejected`.
pub fn bootstrap_default_admin(user_count: u64, now: i64) -> (result: Result<Option<User>, PosError>)
    ensures
        user_count > 0 ==> result == Ok::<Option<User>, PosError>(None),
        user_count == 0 ==> match result {
            Ok(Some(user)) => {
                &&& is_default_admin(user, now)
                &&& spec_is_object_id(user.id@)
                &&& argon2_accepts(user.password_hash@, "admin123"@)
            },
            Ok(None) => false,
            Err(e) => e == PosError::PasswordRejected,
        },
{
    if user_count > 0 {
        return Ok(None);
    }
    let hash = match hash_password("admin123") {
        Ok(hash) => hash,
        Err(_) => {
            return Err(PosError::PasswordRejected);
        },
    };
    Ok(
        Some(
            User {
                id: new_object_id(),
                tenant_id: "ELTITI1".to_owned(),
                branch_id: "SUCURSAL1".to_owned(),
                name: "Administrador".to_owned(),
                username: "admin".to_owned(),
                role: Role::ADMIN,
                active: true,
                password_hash: hash,
                created_at: now,
                updated_at: now,
            },
        ),
    )
}

} // verus!
