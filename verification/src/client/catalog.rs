//! The catalog calls: where each one goes and what is made of its answer.

use crate::client::http::{Method, Request};
use crate::client::item::Item;
use crate::client::order::{Order, Unowned};
use crate::error::ApiError;
use crate::text::{fields_view, same_text};
use crate::types::filter::OrdersTopFilters;
use crate::types::item::{Item as ItemObject, Order as OrderItem, OrderWithUser, OrdersTopResult};
use crate::types::user::StatusType;
use vstd::prelude::*;

verus! {

/// What is said when the filters could not be written as a query.
pub const FILTERS_UNSERIALIZABLE: &'static str = "Unable to serialize filters";

/// What is said when no listed item belongs to an order.
pub const ITEM_NOT_FOUND: &'static str = "Item not found";

/// The text that `serde_urlencoded` writes for a list of pairs, in the form of
/// `application/x-www-form-urlencoded`.
pub uninterp spec fn form_encoded(pairs: Seq<(Seq<char>, Seq<char>)>) -> Seq<char>;

/// Calls `serde_urlencoded::to_string` on the list of pairs, which writes
/// `name=value` for each pair, joined by `&`, with names and values
/// percent-encoded. The contract names the text that comes out, and leaves
/// open whether one comes out.
#[verifier::external_body]
fn form_encode(pairs: &Vec<(String, String)>) -> (encoded: Option<String>)
    ensures
        encoded matches Some(text) ==> text@ == form_encoded(fields_view(pairs@)),
{
    serde_urlencoded::to_string(pairs).ok()
}

/// A `GET` of `path`.
pub fn get(path: String) -> (request: Request)
    ensures
        request.method == Method::Get,
        request.path == path,
{
    Request { method: Method::Get, path }
}

/// `prefix` followed by `name`.
pub fn join(prefix: &str, name: &str) -> (path: String)
    ensures
        path@ == prefix@ + name@,
{
    let mut path = prefix.to_owned();
    path.append(name);
    path
}

/// The request that lists every item: `GET /items`.
pub fn items_request() -> (request: Request)
    ensures
        request.method == Method::Get,
        request.path@ == "/items"@,
{
    get("/items".to_owned())
}

/// The request for one item: `GET /item/{slug}`.
pub fn item_request(slug: &str) -> (request: Request)
    ensures
        request.method == Method::Get,
        request.path@ == "/item/"@ + slug@,
{
    get(join("/item/", slug))
}

/// The request for the orders of an item: `GET /orders/item/{slug}`.
pub fn orders_request(slug: &str) -> (request: Request)
    ensures
        request.method == Method::Get,
        request.path@ == "/orders/item/"@ + slug@,
{
    get(join("/orders/item/", slug))
}

/// The request for one order: `GET /order/{id}`.
pub fn order_request(id: &str) -> (request: Request)
    ensures
        request.method == Method::Get,
        request.path@ == "/order/"@ + id@,
{
    get(join("/order/", id))
}

/// The path of the best orders of an item, for a query that is absent, was
/// written, or could not be written.
///
/// Without filters the path is `/orders/item/{slug}/top`; with filters it is
/// followed by `?` and the query. Filters that could not be written fail
/// with `ParsingError`.
pub fn top_orders_path(slug: &str, query: Option<Option<String>>) -> (result: Result<
    String,
    ApiError,
>)
    ensures
        match query {
            None => result matches Ok(path) && path@ == "/orders/item/"@ + slug@ + "/top"@,
            Some(Some(text)) => result matches Ok(path) && path@ == "/orders/item/"@ + slug@
                + "/top?"@ + text@,
            Some(None) => result matches Err(ApiError::ParsingError(text)) && text@
                == FILTERS_UNSERIALIZABLE@,
        },
{
    let mut path = join("/orders/item/", slug);
    match query {
        None => {
            path.append("/top");
            assert(path@ =~= "/orders/item/"@ + slug@ + "/top"@);
            Ok(path)
        },
        Some(Some(text)) => {
            path.append("/top?");
            path.append(text.as_str());
            assert(path@ =~= "/orders/item/"@ + slug@ + "/top?"@ + text@);
            Ok(path)
        },
        Some(None) => Err(ApiError::ParsingError(FILTERS_UNSERIALIZABLE.to_owned())),
    }
}

/// The request for the best orders of an item: `GET /orders/item/{slug}/top`,
/// followed by the query of the filters where there are any.
///
/// Without filters the request is always made. With filters it is made when
/// their query could be written, and carries that query.
pub fn top_orders_request(slug: &str, filters: &Option<OrdersTopFilters>) -> (result: Result<
    Request,
    ApiError,
>)
    ensures
        match *filters {
            None => result matches Ok(request) && request.method == Method::Get && request.path@
                == "/orders/item/"@ + slug@ + "/top"@,
            Some(filters) => match result {
                Ok(request) => request.method == Method::Get && request.path@ == "/orders/item/"@
                    + slug@ + "/top?"@ + form_encoded(filters.query_fields()),
                Err(e) => e matches ApiError::ParsingError(text) && text@
                    == FILTERS_UNSERIALIZABLE@,
            },
        },
{
    let query = match filters {
        Some(filters) => Some(form_encode(&filters.query_pairs())),
        None => None,
    };
    match top_orders_path(slug, query) {
        Ok(path) => Ok(get(path)),
        Err(e) => Err(e),
    }
}

/// The records of a list of orders.
pub open spec fn records<State>(orders: Seq<Order<State>>) -> Seq<OrderItem> {
    orders.map_values(|order: Order<State>| order@)
}

/// The orders of a list of orders with their authors, in the same order.
pub open spec fn plain(orders: Seq<OrderWithUser>) -> Seq<OrderItem> {
    orders.map_values(|order: OrderWithUser| order.order)
}

/// Makes orders of unknown ownership from the orders of an answer.
pub fn orders_from(data: &Vec<OrderWithUser>) -> (orders: Vec<Order<Unowned>>)
    ensures
        records(orders@) == plain(data@),
{
    let mut orders: Vec<Order<Unowned>> = Vec::new();
    let mut i: usize = 0;
    while i < data.len()
        invariant
            i <= data.len(),
            records(orders@) == plain(data@.take(i as int)),
        decreases data.len() - i,
    {
        let ghost before = orders@;
        orders.push(Order::new(&data[i].downgrade()));
        assert(records(orders@) =~= records(before).push(data@[i as int].order));
        assert(plain(data@.take(i + 1)) =~= plain(data@.take(i as int)).push(data@[i as int].order));
        i += 1;
    }
    assert(data@.take(data.len() as int) =~= data@);
    orders
}

/// The activity that the answer is narrowed by.
pub open spec fn activity_of(filters: Option<OrdersTopFilters>) -> Option<StatusType> {
    match filters {
        Some(filters) => filters.user_activity,
        None => None,
    }
}

/// The orders whose author has the given activity, in the order of the list.
/// Without an activity to narrow by, no order is kept.
pub open spec fn matching(orders: Seq<OrderWithUser>, activity: Option<StatusType>) -> Seq<
    OrderItem,
>
    decreases orders.len(),
{
    if orders.len() == 0 {
        Seq::empty()
    } else {
        let before = matching(orders.drop_last(), activity);
        if activity == Some(orders.last().user.status_type) {
            before.push(orders.last().order)
        } else {
            before
        }
    }
}

/// Appends to `kept` the orders of `orders` whose author has the given activity.
fn keep_matching(
    kept: &mut Vec<Order<Unowned>>,
    orders: &Vec<OrderWithUser>,
    activity: Option<StatusType>,
)
    ensures
        records(final(kept)@) == records(old(kept)@) + matching(orders@, activity),
{
    let mut i: usize = 0;
    while i < orders.len()
        invariant
            i <= orders.len(),
            records(kept@) == records(old(kept)@) + matching(orders@.take(i as int), activity),
        decreases orders.len() - i,
    {
        let ghost before = kept@;
        assert(orders@.take(i + 1).drop_last() =~= orders@.take(i as int));
        let keep = match activity {
            Some(activity) => activity == orders[i].user.status_type,
            None => false,
        };
        if keep {
            kept.push(Order::new(&orders[i].downgrade()));
            assert(records(kept@) =~= records(before).push(orders@[i as int].order));
        }
        assert(records(kept@) =~= records(old(kept)@) + matching(
            orders@.take(i + 1),
            activity,
        ));
        i += 1;
    }
    assert(orders@.take(orders.len() as int) =~= orders@);
}

/// Makes of the best orders of an answer the list that is handed out: the
/// bids whose author has the activity asked for, then the offers whose author
/// has it.
pub fn select_top_orders(data: &OrdersTopResult, filters: &Option<OrdersTopFilters>) -> (orders:
    Vec<Order<Unowned>>)
    ensures
        records(orders@) == matching(data.buy@, activity_of(*filters)) + matching(
            data.sell@,
            activity_of(*filters),
        ),
{
    let activity = match filters {
        Some(filters) => filters.user_activity,
        None => None,
    };
    let mut orders: Vec<Order<Unowned>> = Vec::new();
    keep_matching(&mut orders, &data.buy, activity);
    keep_matching(&mut orders, &data.sell, activity);
    assert(records(orders@) =~= matching(data.buy@, activity) + matching(data.sell@, activity));
    orders
}

/// Makes plain items from the records of an answer.
pub fn items_from(data: &Vec<ItemObject>) -> (items: Vec<Item>)
    ensures
        items@.len() == data@.len(),
        forall|i: int| 0 <= i < data@.len() ==> (#[trigger] items@[i]).record() == data@[i]@,
{
    let mut items: Vec<Item> = Vec::new();
    let mut i: usize = 0;
    while i < data.len()
        invariant
            i <= data.len(),
            items@.len() == i,
            forall|j: int| 0 <= j < i ==> (#[trigger] items@[j]).record() == data@[j]@,
        decreases data.len() - i,
    {
        items.push(Item::new(&data[i]));
        i += 1;
    }
    items
}

/// The place of the first item with the given identifier, if there is one.
pub open spec fn first_with_id(items: Seq<Item>, id: Seq<char>, at: int) -> bool {
    &&& 0 <= at < items.len()
    &&& items[at].record().id@ == id
    &&& forall|j: int| 0 <= j < at ==> items[j].record().id@ != id
}

/// The listed item that an order is for: the first whose identifier is the
/// order's item. Fails with `Unknown` exactly when no listed item has it.
pub fn find_order_item<State>(items: &Vec<Item>, order: &Order<State>) -> (result: Result<
    Item,
    ApiError,
>)
    ensures
        match result {
            Ok(item) => exists|at: int|
                first_with_id(items@, order@.item_id@, at) && item.record() == items@[at].record(),
            Err(e) => e matches ApiError::Unknown(text) && text@ == ITEM_NOT_FOUND@ && forall|
                j: int,
            |
                0 <= j < items@.len() ==> (#[trigger] items@[j]).record().id@ != order@.item_id@,
        },
{
    let wanted = order.get_type().item_id;
    let mut i: usize = 0;
    while i < items.len()
        invariant
            i <= items.len(),
            wanted == order@.item_id,
            forall|j: int| 0 <= j < i ==> (#[trigger] items@[j]).record().id@ != order@.item_id@,
        decreases items.len() - i,
    {
        let id = items[i].get_type().id;
        if same_text(id.as_str(), wanted.as_str()) {
            assert(first_with_id(items@, order@.item_id@, i as int));
            return Ok(items[i].clone());
        }
        i += 1;
    }
    Err(ApiError::Unknown(ITEM_NOT_FOUND.to_owned()))
}

} // verus!
