//! Login, refresh and what only an authenticated session may do.
//!
//! Login is all or nothing. The credential exchange yields a `PendingLogin`,
//! which is no session: it only says how to authorize the refresh. The refresh
//! turns it into an authenticated session, or the login fails as a whole.

use crate::client::catalog::{join, records};
use crate::client::http::{Method, Request};
use crate::client::order::{Order, Owned, Unowned};
use crate::client::ws::builder::WsClientBuilder;
use crate::client::ws::message::WsMessage;
use crate::client::ws::route::Route;
use crate::client::ws::sender::MessageSender;
use crate::client::{Authenticated, Client, ClientView, Unauthenticated};
use crate::error::{ApiError, AuthError, WsError};
use crate::json::{json_number, json_number_of, json_object, json_object_of, members_view};
use crate::text::{fields_view, same_text};
use crate::types::item::Order as OrderItem;
use crate::types::user::FullUser;
use vstd::prelude::*;

verus! {

/// The path of the credential exchange, below the first version's base.
pub const SIGN_IN_PATH: &'static str = "/auth/signin";

/// The scheme that the exchange is asked under, and that its answer names
/// before the token.
pub const EXCHANGE_SCHEME: &'static str = "JWT";

/// The number of characters before the token in the answer's header: the
/// scheme and a space.
pub const SCHEME_PREFIX_LENGTH: usize = 4;

/// What the token is preceded by in the header of later requests.
pub const BEARER_PREFIX: &'static str = "Bearer ";

/// What a failed exchange's cause is prefixed with.
pub const EXCHANGE_FAILED_PREFIX: &'static str = "Unknown Error: ";

/// What is said when the refresh after the exchange failed.
pub const REFRESH_FAILED: &'static str = "Unable to refresh user after authentication";

/// What became of the credential exchange.
#[derive(Debug, PartialEq, Eq)]
pub enum SignIn {
    /// No answer came, for the given cause.
    Failed(String),
    /// An answer came: the account that its body decoded to, if it decoded,
    /// and its authorization header, if it has one that is text.
    Answered { user: Option<FullUser>, authorization: Option<String> },
}

/// A login between the credential exchange and the refresh.
#[derive(Debug)]
pub struct PendingLogin {
    client: Client<Authenticated>,
}

/// The fields of the exchange's body, in order.
pub open spec fn login_fields(username: Seq<char>, password: Seq<char>, device_id: Seq<char>) -> Seq<
    (Seq<char>, Seq<char>),
> {
    seq![
        ("auth_type"@, "header"@),
        ("email"@, username),
        ("password"@, password),
        ("device_id"@, device_id),
    ]
}

/// Builds the fields of the exchange's body.
pub fn build_auth_payload(username: &str, password: &str, device_id: &str) -> (fields: Vec<
    (String, String),
>)
    ensures
        fields_view(fields@) == login_fields(username@, password@, device_id@),
{
    let mut fields: Vec<(String, String)> = Vec::new();
    fields.push(("auth_type".to_owned(), "header".to_owned()));
    fields.push(("email".to_owned(), username.to_owned()));
    fields.push(("password".to_owned(), password.to_owned()));
    fields.push(("device_id".to_owned(), device_id.to_owned()));
    assert(fields_view(fields@) =~= login_fields(username@, password@, device_id@));
    fields
}

/// The token in an authorization header: what follows the scheme and the
/// space. There is none without a header, or in a header too short to hold
/// the scheme.
pub open spec fn token_in(header: Option<Seq<char>>) -> Option<Seq<char>> {
    match header {
        Some(text) => if text.len() >= SCHEME_PREFIX_LENGTH {
            Some(text.skip(SCHEME_PREFIX_LENGTH as int))
        } else {
            None
        },
        None => None,
    }
}

/// Takes the token out of the exchange's authorization header. Fails with
/// `ParsingError` exactly when there is no header or the header is too short
/// to hold the scheme.
pub fn bearer_token(header: Option<&str>) -> (result: Result<String, AuthError>)
    ensures
        match token_in(
            match header {
                Some(text) => Some(text@),
                None => None,
            },
        ) {
            Some(token) => result matches Ok(text) && text@ == token,
            None => result matches Err(AuthError::ParsingError),
        },
{
    match header {
        Some(text) => {
            let length = text.unicode_len();
            if length >= SCHEME_PREFIX_LENGTH {
                Ok(text.substring_char(SCHEME_PREFIX_LENGTH, length).to_owned())
            } else {
                Err(AuthError::ParsingError)
            }
        },
        None => Err(AuthError::ParsingError),
    }
}

/// The authorization header of a session's requests: `Bearer ` and the token.
pub fn authorization_value(token: &str) -> (value: String)
    ensures
        value@ == BEARER_PREFIX@ + token@,
{
    join(BEARER_PREFIX, token)
}

/// The request for the account: `GET /me`.
pub fn me_request() -> (request: Request)
    ensures
        request.method == Method::Get,
        request.path@ == "/me"@,
{
    Request { method: Method::Get, path: "/me".to_owned() }
}

/// The request for the account's orders: `GET /orders/my`.
pub fn my_orders_request() -> (request: Request)
    ensures
        request.method == Method::Get,
        request.path@ == "/orders/my"@,
{
    Request { method: Method::Get, path: "/orders/my".to_owned() }
}

/// Whether a list of orders holds one with the given identifier.
pub open spec fn holds_order(orders: Seq<OrderItem>, id: Seq<char>) -> bool {
    exists|i: int| 0 <= i < orders.len() && (#[trigger] orders[i]).id@ == id
}

/// Makes owned orders from the records of an answer about the account.
pub fn owned_from(data: &Vec<OrderItem>) -> (orders: Vec<Order<Owned>>)
    ensures
        records(orders@) == data@,
{
    let mut orders: Vec<Order<Owned>> = Vec::new();
    let mut i: usize = 0;
    while i < data.len()
        invariant
            i <= data.len(),
            records(orders@) == data@.take(i as int),
        decreases data.len() - i,
    {
        let ghost before = orders@;
        orders.push(Order::new_owned(&data[i]));
        assert(records(orders@) =~= records(before).push(data@[i as int]));
        assert(data@.take(i + 1) =~= data@.take(i as int).push(data@[i as int]));
        i += 1;
    }
    assert(data@.take(data.len() as int) =~= data@);
    orders
}

/// Why an exchange yields no pending login.
pub enum ExchangeFailure {
    /// No answer came, for the given cause.
    NoAnswer(Seq<char>),
    /// The body did not decode, or the header holds no token.
    Unreadable,
}

/// What the exchange leads to: the account and the token of a pending login,
/// or why there is none.
pub open spec fn exchanged(answer: SignIn) -> Result<(FullUser, Seq<char>), ExchangeFailure> {
    match answer {
        SignIn::Failed(cause) => Err(ExchangeFailure::NoAnswer(cause@)),
        SignIn::Answered { user: None, .. } => Err(ExchangeFailure::Unreadable),
        SignIn::Answered { user: Some(user), authorization } => match token_in(
            match authorization {
                Some(text) => Some(text@),
                None => None,
            },
        ) {
            Some(token) => Ok((user, token)),
            None => Err(ExchangeFailure::Unreadable),
        },
    }
}

impl Client<Unauthenticated> {
    /// Takes the outcome of the credential exchange.
    ///
    /// On success the login is pending: the account is the one that the
    /// exchange named, with its status, without orders, with the anonymous
    /// session's cache, and with the token and the device as its credential.
    /// On failure there is no session of any kind: no answer is `Unknown`
    /// with the cause, an answer that cannot be read is `ParsingError`.
    pub fn login(self, answer: SignIn, device_id: &str) -> (result: Result<PendingLogin, AuthError>)
        ensures
            match exchanged(answer) {
                Ok((user, token)) => result matches Ok(pending) && pending.session().user == Some(
                    user,
                ) && pending.session().orders == Seq::<OrderItem>::empty()
                    && pending.session().status == user.status_type && pending.session().cache
                    == self@.cache && pending.session().state.token() == token
                    && pending.session().state.device_id() == device_id@,
                Err(ExchangeFailure::NoAnswer(cause)) => result matches Err(
                    AuthError::Unknown(text),
                ) && text@ == EXCHANGE_FAILED_PREFIX@ + cause,
                Err(ExchangeFailure::Unreadable) => result matches Err(AuthError::ParsingError),
            },
    {
        match answer {
            SignIn::Failed(cause) => Err(
                AuthError::Unknown(join(EXCHANGE_FAILED_PREFIX, cause.as_str())),
            ),
            SignIn::Answered { user: None, .. } => Err(AuthError::ParsingError),
            SignIn::Answered { user: Some(user), authorization } => {
                let header = match &authorization {
                    Some(text) => Some(text.as_str()),
                    None => None,
                };
                let token = match bearer_token(header) {
                    Ok(token) => token,
                    Err(e) => {
                        return Err(e);
                    },
                };
                let status = user.status_type;
                let client = Client {
                    user: Some(user),
                    orders: Vec::new(),
                    status,
                    items_cache: self.items_cache,
                    state: Authenticated::new(token, device_id.to_owned()),
                };
                assert(client@.orders =~= Seq::<OrderItem>::empty());
                Ok(PendingLogin { client })
            },
        }
    }
}

/// What a refresh returns: the first failure, that of the orders before that
/// of the account, or the account.
pub open spec fn refreshed(
    user: Result<FullUser, ApiError>,
    orders: Result<Vec<OrderItem>, ApiError>,
) -> Result<FullUser, ApiError> {
    match (orders, user) {
        (Err(e), _) => Err(e),
        (Ok(_), Err(e)) => Err(e),
        (Ok(_), Ok(user)) => Ok(user),
    }
}

impl PendingLogin {
    /// The session that the login will yield if the refresh succeeds.
    pub closed spec fn session(&self) -> ClientView<Authenticated> {
        self.client@
    }

    /// The authorization header with which the refresh is to be asked for.
    pub fn authorization(&self) -> (value: String)
        ensures
            value@ == BEARER_PREFIX@ + self.session().state.token(),
    {
        authorization_value(self.client.state.token_text().as_str())
    }

    /// Takes the outcome of the refresh and ends the login.
    ///
    /// If either half of the refresh failed, the login fails with `Unknown`,
    /// although the exchange succeeded, and no session is returned.
    /// Otherwise the session is returned with the account and the orders of
    /// the refresh.
    pub fn complete(
        self,
        user: Result<FullUser, ApiError>,
        orders: Result<Vec<OrderItem>, ApiError>,
    ) -> (result: Result<Client<Authenticated>, AuthError>)
        ensures
            match refreshed(user, orders) {
                Ok(account) => result matches Ok(client) && client@ == (ClientView {
                    user: Some(account),
                    orders: orders->Ok_0@,
                    ..self.session()
                }),
                Err(_) => result matches Err(AuthError::Unknown(text)) && text@ == REFRESH_FAILED@,
            },
    {
        let mut client = self.client;
        match client.refresh(user, orders) {
            Ok(_) => Ok(client),
            Err(_) => Err(AuthError::Unknown(REFRESH_FAILED.to_owned())),
        }
    }
}

impl Client<Authenticated> {
    /// Takes the two answers of a refresh.
    ///
    /// Both must have succeeded. If either failed, the first failure is
    /// returned, that of the orders before that of the account, and the
    /// session stays exactly as it was. Otherwise the account and the orders
    /// are replaced together and the account is returned.
    pub fn refresh(
        &mut self,
        user: Result<FullUser, ApiError>,
        orders: Result<Vec<OrderItem>, ApiError>,
    ) -> (result: Result<FullUser, ApiError>)
        ensures
            result == refreshed(user, orders),
            match result {
                Ok(account) => final(self)@ == (ClientView {
                    user: Some(account),
                    orders: orders->Ok_0@,
                    ..old(self)@
                }),
                Err(_) => final(self)@ == old(self)@,
            },
    {
        let order_instances = match orders {
            Ok(data) => owned_from(&data),
            Err(e) => {
                return Err(e);
            },
        };
        let user_data = match user {
            Ok(user_data) => user_data,
            Err(e) => {
                return Err(e);
            },
        };
        self.orders = order_instances;
        self.user = Some(user_data.clone());
        Ok(user_data)
    }

    /// Makes the orders that `my_orders` hands out from the answer to
    /// `my_orders_request`.
    pub fn my_orders(&self, data: &Vec<OrderItem>) -> (orders: Vec<Order<Owned>>)
        ensures
            records(orders@) == data@,
    {
        owned_from(data)
    }

    /// Takes ownership of an order.
    ///
    /// Succeeds exactly when the order's identifier is among the orders of the
    /// last refresh, and then returns the same order as owned; otherwise
    /// fails with `Unauthorized`. The check is local and may be stale.
    pub fn take_order(&self, order: Order<Unowned>) -> (result: Result<Order<Owned>, ApiError>)
        ensures
            match result {
                Ok(owned) => holds_order(self@.orders, order@.id@) && owned@ == order@,
                Err(e) => !holds_order(self@.orders, order@.id@) && e matches ApiError::Unauthorized,
            },
    {
        let record = order.get_type();
        let mut i: usize = 0;
        while i < self.orders.len()
            invariant
                i <= self.orders.len(),
                record == order@,
                forall|j: int| 0 <= j < i ==> (#[trigger] records(self.orders@)[j]).id@ != order@.id@,
            decreases self.orders.len() - i,
        {
            let id = self.orders[i].get_id();
            if same_text(id.as_str(), record.id.as_str()) {
                assert(records(self.orders@)[i as int].id@ == order@.id@);
                return Ok(Order::new_owned(&record));
            }
            i += 1;
        }
        Err(ApiError::Unauthorized)
    }

    /// The bearer token.
    pub fn get_token(&self) -> (token: String)
        ensures
            token@ == self@.state.token(),
    {
        self.state.token_text()
    }

    /// The device that signed in.
    pub fn get_device_id(&self) -> (device_id: String)
        ensures
            device_id@ == self@.state.device_id(),
    {
        self.state.device_text()
    }

    /// Starts the configuration of a transport that signs in with this
    /// session's credential.
    pub fn create_websocket<H: Fn(&WsMessage, &Route, &MessageSender) -> Result<(), WsError>>(
        &self,
    ) -> (builder: WsClientBuilder<H>)
        ensures
            builder.handlers() == Map::<Seq<char>, H>::empty(),
            builder.token() == self@.state.token(),
            builder.device_id() == self@.state.device_id(),
    {
        WsClientBuilder::new(self.get_token(), self.get_device_id())
    }

    /// The request that changes an order: `PATCH /order/{id}`.
    pub fn update_order_request(&self, order: &Order<Owned>) -> (request: Request)
        ensures
            request.method == Method::Patch,
            request.path@ == "/order/"@ + order@.id@,
    {
        Request { method: Method::Patch, path: join("/order/", order.get_id().as_str()) }
    }

    /// The request that creates an order: `POST /order`.
    pub fn create_order_request(&self) -> (request: Request)
        ensures
            request.method == Method::Post,
            request.path@ == "/order"@,
    {
        Request { method: Method::Post, path: "/order".to_owned() }
    }

    /// The request that closes an order, or a part of it:
    /// `POST /order/{id}/close`.
    pub fn close_order_request(&self, order_id: &str) -> (request: Request)
        ensures
            request.method == Method::Post,
            request.path@ == "/order/"@ + order_id@ + "/close"@,
    {
        let mut path = join("/order/", order_id);
        path.append("/close");
        Request { method: Method::Post, path }
    }

    /// The body of the request that closes `quantity` units of an order.
    pub fn close_order_body(&self, quantity: u32) -> (body: serde_json::Value)
        ensures
            body == json_object_of(seq![("quantity"@, json_number_of(quantity))]),
    {
        let mut members: Vec<(String, serde_json::Value)> = Vec::new();
        members.push(("quantity".to_owned(), json_number(quantity)));
        assert(members_view(members@) =~= seq![("quantity"@, json_number_of(quantity))]);
        json_object(members)
    }

    /// The request that deletes an order: `DELETE /order/{id}`.
    pub fn delete_order_request(&self, order_id: &str) -> (request: Request)
        ensures
            request.method == Method::Delete,
            request.path@ == "/order/"@ + order_id@,
    {
        Request { method: Method::Delete, path: join("/order/", order_id) }
    }

    /// The order that the service returned for a change or a creation, as the
    /// account's own.
    pub fn owned_order(&self, record: &OrderItem) -> (order: Order<Owned>)
        ensures
            order@ == *record,
    {
        Order::new_owned(record)
    }
}

} // verus!
