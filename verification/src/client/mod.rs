//! The session and the transport built on it.
//!
//! A `Client` is either anonymous or authenticated, and the difference is in
//! its type: what only an account may do is a method of
//! `Client<Authenticated>` and cannot be written for an anonymous client.

pub mod auth;
pub mod catalog;
pub mod http;
pub mod item;
pub mod order;
pub mod riven;
pub mod ws;

pub use auth::{PendingLogin, SignIn};
pub use http::Method;
pub use item::{Item, Mod, Regular, Sculpture};
pub use order::{Order, Owned, Unowned};

use crate::client::catalog::{items_from, records};
use crate::types::item::{Item as ItemObject, ItemView, Order as OrderItem};
use crate::types::user::{FullUser, StatusType};
use vstd::prelude::*;

verus! {

/// Marks a session without an account.
#[derive(Debug)]
pub struct Unauthenticated;

/// Marks a session of an account, and holds its credential: the bearer token
/// and the device that signed in. Both are set at login and never change.
#[derive(Debug)]
pub struct Authenticated {
    token: String,
    device_id: String,
}

impl Authenticated {
    /// The bearer token.
    pub closed spec fn token(&self) -> Seq<char> {
        self.token@
    }

    /// The device that signed in.
    pub closed spec fn device_id(&self) -> Seq<char> {
        self.device_id@
    }

    pub(crate) fn new(token: String, device_id: String) -> (credential: Authenticated)
        ensures
            credential.token() == token@,
            credential.device_id() == device_id@,
    {
        Authenticated { token, device_id }
    }

    pub(crate) fn token_text(&self) -> (token: String)
        ensures
            token@ == self.token(),
    {
        self.token.clone()
    }

    pub(crate) fn device_text(&self) -> (device_id: String)
        ensures
            device_id@ == self.device_id(),
    {
        self.device_id.clone()
    }
}

/// A session.
#[derive(Debug)]
pub struct Client<State = Unauthenticated> {
    /// The account, as of the last refresh.
    pub user: Option<FullUser>,
    /// The open orders of the account, as of the last refresh.
    pub orders: Vec<Order<Owned>>,
    /// The status of the account.
    pub status: StatusType,
    items_cache: Vec<Item>,
    state: State,
}

/// The mathematical content of a session.
pub struct ClientView<State> {
    /// The account, as of the last refresh.
    pub user: Option<FullUser>,
    /// The records of the account's open orders, as of the last refresh.
    pub orders: Seq<OrderItem>,
    /// The status of the account.
    pub status: StatusType,
    /// The records of the cached listing.
    pub cache: Seq<ItemView>,
    /// What marks the session: nothing, or the credential.
    pub state: State,
}

impl<State> View for Client<State> {
    type V = ClientView<State>;

    closed spec fn view(&self) -> ClientView<State> {
        ClientView {
            user: self.user,
            orders: records(self.orders@),
            status: self.status,
            cache: item_records(self.items_cache@),
            state: self.state,
        }
    }
}

/// The records of a list of items.
pub open spec fn item_records(items: Seq<Item>) -> Seq<ItemView> {
    items.map_values(|item: Item| item.record())
}

/// The records of a list of item records.
pub open spec fn record_views(data: Seq<ItemObject>) -> Seq<ItemView> {
    data.map_values(|record: ItemObject| record@)
}

/// What a listing is served from, if it can be served without a request: the
/// cache, once it holds anything.
pub open spec fn served(cache: Seq<ItemView>) -> Option<Seq<ItemView>> {
    if cache.len() > 0 {
        Some(cache)
    } else {
        None
    }
}

/// The cache after a listing has been fetched: an empty cache takes the
/// listing, a filled cache stays as it is.
pub open spec fn stored(cache: Seq<ItemView>, fetched: Seq<ItemView>) -> Seq<ItemView> {
    if cache.len() > 0 {
        cache
    } else {
        fetched
    }
}

/// After a listing that holds anything has been stored, the next listing is
/// served from the cache, with what the first one returned.
pub proof fn lemma_second_listing_is_served(cache: Seq<ItemView>, fetched: Seq<ItemView>)
    requires
        served(cache) is None,
        fetched.len() > 0,
    ensures
        served(stored(cache, fetched)) == Some(fetched),
{
}

/// A filled cache is never replaced: storing another listing leaves it as it is.
pub proof fn lemma_cache_is_never_invalidated(cache: Seq<ItemView>, fetched: Seq<ItemView>)
    requires
        served(cache) is Some,
    ensures
        stored(cache, fetched) == cache,
        served(stored(cache, fetched)) == served(cache),
{
}

impl<State> Client<State> {
    /// The cached listing, if the cache holds anything: a listing that can be
    /// served without a request.
    pub fn cached_items(&self) -> (items: Option<Vec<Item>>)
        ensures
            match items {
                Some(items) => served(self@.cache) == Some(item_records(items@)),
                None => served(self@.cache) is None,
            },
    {
        if self.items_cache.len() == 0 {
            return None;
        }
        let mut items: Vec<Item> = Vec::new();
        let mut i: usize = 0;
        while i < self.items_cache.len()
            invariant
                i <= self.items_cache.len(),
                item_records(items@) == item_records(self.items_cache@.take(i as int)),
            decreases self.items_cache.len() - i,
        {
            let ghost before = items@;
            items.push(self.items_cache[i].clone());
            assert(item_records(items@) =~= item_records(before).push(
                self.items_cache@[i as int].record(),
            ));
            assert(item_records(self.items_cache@.take(i + 1)) =~= item_records(
                self.items_cache@.take(i as int),
            ).push(self.items_cache@[i as int].record()));
            i += 1;
        }
        assert(self.items_cache@.take(self.items_cache.len() as int) =~= self.items_cache@);
        Some(items)
    }

    /// Takes a fetched listing: hands it out as items, and keeps it in the
    /// cache unless the cache holds a listing already.
    pub fn store_items(&mut self, data: &Vec<ItemObject>) -> (items: Vec<Item>)
        ensures
            item_records(items@) == record_views(data@),
            final(self)@ == (ClientView {
                cache: stored(old(self)@.cache, record_views(data@)),
                ..old(self)@
            }),
    {
        let items = items_from(data);
        assert(item_records(items@) =~= record_views(data@));
        if self.items_cache.len() == 0 {
            let kept = items_from(data);
            assert(item_records(kept@) =~= record_views(data@));
            self.items_cache = kept;
        }
        items
    }
}

impl Client<Unauthenticated> {
    /// A session without an account: nobody signed in, no orders, offline,
    /// nothing cached.
    pub fn new() -> (client: Client<Unauthenticated>)
        ensures
            client@ == (ClientView {
                user: None,
                orders: Seq::empty(),
                status: StatusType::Offline,
                cache: Seq::empty(),
                state: Unauthenticated,
            }),
    {
        let client = Client {
            user: None,
            orders: Vec::new(),
            status: StatusType::Offline,
            items_cache: Vec::new(),
            state: Unauthenticated,
        };
        assert(client@.orders =~= Seq::empty());
        assert(client@.cache =~= Seq::empty());
        client
    }
}

} // verus!
