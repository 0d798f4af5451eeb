//! Products: what can be ordered, and how it is created and changed.

use vstd::prelude::*;
use crate::auth::require_session;
use crate::db::{NewProduct, Product, ProductView, UpdateProduct};
use crate::error::PosError;
use crate::orders::{page_window, spec_page_number, spec_page_size, spec_page_skip, PageWindow};
use crate::state::{clock_secs, lookup, AppState};
use crate::text::{is_object_id, new_object_id, spec_is_object_id};
use crate::users::{admin_refusal, check_admin, pick, search_text, spec_search};

verus! {

/// One page of a listing.
#[derive(Debug)]
pub struct Page<T> {
    pub data: Vec<T>,
    /// How many entries the whole listing has.
    pub total: i64,
    pub page: i64,
    pub page_size: i64,
}

/// The product that `payload` asks for, under the identifier `id`, created
/// at `now`.
pub fn product_from(payload: NewProduct, id: String, now: i64) -> (product: Product)
    ensures
        product == (Product {
            id,
            tenant_id: payload.tenant_id,
            branch_id: payload.branch_id,
            name: payload.name,
            photo_base64: payload.photo_base64,
            cost: payload.cost,
            price: payload.price,
            description: payload.description,
            category: payload.category,
            created_at: now,
            updated_at: now,
        }),
{
    Product {
        id,
        tenant_id: payload.tenant_id,
        branch_id: payload.branch_id,
        name: payload.name,
        photo_base64: payload.photo_base64,
        cost: payload.cost,
        price: payload.price,
        description: payload.description,
        category: payload.category,
        created_at: now,
        updated_at: now,
    }
}

/// Makes the product that `payload` asks for, at `now`, in milliseconds since
/// the epoch. Only an administrator may: otherwise the request is refused
/// with `SessionInvalid` or `NotAuthorized`. The product handed back has a
/// newly made identifier and is the one to store.
pub fn create_product(state: &AppState, session_id: &str, now: i64, payload: NewProduct) -> (result:
    Result<Product, PosError>)
    ensures
        match admin_refusal(state.sessions@, session_id@, now) {
            Some(e) => result == Err::<Product, PosError>(e),
            None => {
                &&& result matches Ok(product)
                &&& spec_is_object_id(product.id@)
                &&& product == (Product {
                    id: product.id,
                    tenant_id: payload.tenant_id,
                    branch_id: payload.branch_id,
                    name: payload.name,
                    photo_base64: payload.photo_base64,
                    cost: payload.cost,
                    price: payload.price,
                    description: payload.description,
                    category: payload.category,
                    created_at: now,
                    updated_at: now,
                })
            },
        },
{
    match check_admin(state, session_id, now) {
        Ok(()) => {},
        Err(e) => {
            return Err(e);
        },
    }
    Ok(product_from(payload, new_object_id(), now))
}

/// What to list of the products of a tenant and branch.
#[derive(Debug)]
pub struct ProductQuery {
    pub tenant_id: String,
    pub branch_id: String,
    /// A text that the name must hold, whatever the case.
    pub search: Option<String>,
    pub window: PageWindow,
}

/// What to ask the store for to list products. Any live session may list
/// them. An empty search text is no search, and a page has twenty products
/// unless another size is asked for.
pub fn list_products(
    state: &AppState,
    session_id: &str,
    now: i64,
    tenant_id: String,
    branch_id: String,
    search: Option<String>,
    page: Option<i64>,
    page_size: Option<i64>,
) -> (result: Result<ProductQuery, PosError>)
    ensures
        result == (if lookup(state.sessions@, session_id@, clock_secs(now)) is None {
            Err::<ProductQuery, PosError>(PosError::SessionInvalid)
        } else {
            Ok::<ProductQuery, PosError>(
                ProductQuery {
                    tenant_id,
                    branch_id,
                    search: spec_search(search),
                    window: PageWindow {
                        page: spec_page_number(page),
                        size: spec_page_size(page_size, 20),
                        skip: spec_page_skip(spec_page_number(page), spec_page_size(page_size, 20)),
                    },
                },
            )
        }),
{
    match require_session(state, session_id, clock_secs(now)) {
        Ok(_) => {},
        Err(e) => {
            return Err(e);
        },
    }
    Ok(
        ProductQuery {
            tenant_id,
            branch_id,
            search: search_text(search),
            window: page_window(page, page_size, 20),
        },
    )
}

/// The page of products that the store returned, as shown.
pub fn products_page(rows: Vec<Product>, total: i64, window: PageWindow) -> (page: Page<ProductView>)
    ensures
        page.total == total,
        page.page == window.page,
        page.page_size == window.size,
        page.data@.len() == rows@.len(),
        forall|k: int|
            0 <= k < rows@.len() ==> #[trigger] page.data@[k] == <ProductView as vstd::std_specs::convert::FromSpec<
                Product,
            >>::from_spec(rows@[k]),
{
    let ghost all = rows@;
    let mut source = rows;
    let mut data: Vec<ProductView> = Vec::new();
    while source.len() > 0
        invariant
            source@.len() + data@.len() == all.len(),
            source@ == all.take(source@.len() as int),
            forall|k: int|
                0 <= k < data@.len() ==> #[trigger] data@[k] == <ProductView as vstd::std_specs::convert::FromSpec<
                    Product,
                >>::from_spec(all[source@.len() + k]),
        decreases source@.len(),
    {
        let product = source.pop().unwrap();
        data.insert(0, ProductView::from(product));
    }
    Page { data, total, page: window.page, page_size: window.size }
}

/// The product `product` after the changes `changes`, last changed at `now`.
pub open spec fn changed_product(product: Product, changes: UpdateProduct, now: i64) -> Product {
    Product {
        name: pick(changes.name, product.name),
        photo_base64: pick(changes.photo_base64, product.photo_base64),
        cost: match changes.cost {
            Some(c) => c,
            None => product.cost,
        },
        price: match changes.price {
            Some(p) => p,
            None => product.price,
        },
        description: pick(changes.description, product.description),
        category: pick(changes.category, product.category),
        updated_at: now,
        ..product
    }
}

/// The product `product` after the changes `changes`: each field that a
/// change names takes the value named, every other field stays, and the
/// product is last changed at `now`.
pub fn apply_product_changes(product: Product, changes: UpdateProduct, now: i64) -> (after: Product)
    ensures
        after == changed_product(product, changes, now),
{
    Product {
        id: product.id,
        tenant_id: product.tenant_id,
        branch_id: product.branch_id,
        name: match changes.name {
            Some(v) => v,
            None => product.name,
        },
        photo_base64: match changes.photo_base64 {
            Some(v) => v,
            None => product.photo_base64,
        },
        cost: match changes.cost {
            Some(c) => c,
            None => product.cost,
        },
        price: match changes.price {
            Some(p) => p,
            None => product.price,
        },
        description: match changes.description {
            Some(v) => v,
            None => product.description,
        },
        category: match changes.category {
            Some(v) => v,
            None => product.category,
        },
        created_at: product.created_at,
        updated_at: now,
    }
}

/// Changes the product `product_id` at `now`, in milliseconds since the
/// epoch. `current` is what the store returned for `product_id`. The change
/// is refused unless the session is an administrator's, with `InvalidId` if
/// `product_id` is not written as an identifier, and with `ProductNotFound`
/// if the store has no such product. Otherwise the product is handed back
/// as changed.
pub fn update_product(
    state: &AppState,
    session_id: &str,
    now: i64,
    product_id: &str,
    changes: UpdateProduct,
    current: Option<Product>,
) -> (result: Result<Product, PosError>)
    ensures
        result == (match admin_refusal(state.sessions@, session_id@, now) {
            Some(e) => Err::<Product, PosError>(e),
            None => if !spec_is_object_id(product_id@) {
                Err::<Product, PosError>(PosError::InvalidId)
            } else {
                match current {
                    Some(product) => Ok::<Product, PosError>(
                        changed_product(product, changes, now),
                    ),
                    None => Err::<Product, PosError>(PosError::ProductNotFound),
                }
            },
        }),
{
    match check_admin(state, session_id, now) {
        Ok(()) => {},
        Err(e) => {
            return Err(e);
        },
    }
    if !is_object_id(product_id) {
        return Err(PosError::InvalidId);
    }
    match current {
        Some(product) => Ok(apply_product_changes(product, changes, now)),
        None => Err(PosError::ProductNotFound),
    }
}

/// The product `product_id` as shown. `found` is what the store returned
/// for `product_id`. The request is refused with `SessionInvalid` without a
/// live session, with `InvalidId` if `product_id` is not written as an
/// identifier, and with `ProductNotFound` if the store has no such product.
pub fn get_product_by_id(
    state: &AppState,
    session_id: &str,
    now: i64,
    product_id: &str,
    found: Option<Product>,
) -> (result: Result<ProductView, PosError>)
    ensures
        result == (if lookup(state.sessions@, session_id@, clock_secs(now)) is None {
            Err::<ProductView, PosError>(PosError::SessionInvalid)
        } else if !spec_is_object_id(product_id@) {
            Err::<ProductView, PosError>(PosError::InvalidId)
        } else {
            match found {
                Some(product) => Ok::<ProductView, PosError>(
                    <ProductView as vstd::std_specs::convert::FromSpec<Product>>::from_spec(product),
                ),
                None => Err::<ProductView, PosError>(PosError::ProductNotFound),
            }
        }),
{
    match require_session(state, session_id, clock_secs(now)) {
        Ok(_) => {},
        Err(e) => {
            return Err(e);
        },
    }
    if !is_object_id(product_id) {
        return Err(PosError::InvalidId);
    }
    match found {
        Some(product) => Ok(ProductView::from(product)),
        None => Err(PosError::ProductNotFound),
    }
}

} // verus!
