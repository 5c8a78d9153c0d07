//! Routing of inbound messages to handlers.
//!
//! Handlers are registered under a path (`cmd/status/set`) or under a path with
//! a parameter (`cmd/status/set:ok`). A message goes to the handler of its full
//! path if there is one, else to the handler of its bare path, else nowhere.
//! A few paths belong to the transport itself: nobody can register them, and
//! messages on them are serviced here.

use crate::client::ws::message::{WsMessage, WsMessageView, INTERNAL_ID};
use crate::client::ws::route::{parse_topic, Route, RouteView};
use crate::client::ws::sender::MessageSender;
use crate::error::WsError;
use crate::json::{json_bool, json_bool_of};
use crate::text::same_text;
use vstd::prelude::*;

verus! {

/// The path on which the service answers the sign-in request.
pub const AUTH_SIGN_IN_PATH: &'static str = "cmd/auth/signIn";

/// The path under which a handler hears that the sign-in was accepted.
pub const AUTH_CONNECTED_PATH: &'static str = "internal/auth_connected";

/// The protocol of the messages that the transport makes for itself.
pub const INTERNAL_PROTOCOL: &'static str = "@internal";

/// The topic of the message that tells a handler that the sign-in was accepted.
pub const AUTH_CONNECTED_TOPIC: &'static str = "@internal|internal/auth_connected";

/// The parameter with which the service accepts a sign-in.
pub const AUTH_ACCEPTED: &'static str = "ok";

/// The paths that belong to the transport.
pub open spec fn is_reserved(path: Seq<char>) -> bool {
    path == AUTH_SIGN_IN_PATH@
}

/// Whether `path` belongs to the transport.
pub fn is_path_reserved(path: &str) -> (reserved: bool)
    ensures
        reserved == is_reserved(path@),
{
    same_text(path, AUTH_SIGN_IN_PATH)
}

/// The paths that belong to the transport.
pub fn reserved_paths() -> (paths: Vec<&'static str>)
    ensures
        forall|path: Seq<char>|
            is_reserved(path) <==> exists|i: int| 0 <= i < paths.len() && paths[i]@ == path,
{
    let mut paths: Vec<&'static str> = Vec::new();
    paths.push(AUTH_SIGN_IN_PATH);
    assert(paths[0]@ == AUTH_SIGN_IN_PATH@);
    paths
}

/// A handler that may be called on every message.
pub open spec fn accepts_all<H: Fn(&WsMessage, &Route, &MessageSender) -> Result<(), WsError>>(
    handler: H,
) -> bool {
    forall|message: &WsMessage, route: &Route, sender: &MessageSender|
        call_requires(handler, (message, route, sender))
}

/// The handler for a route: the one registered for the full path if there is
/// one, else the one registered for the bare path.
pub open spec fn resolve<H>(table: Map<Seq<char>, H>, route: RouteView) -> Option<H> {
    if table.contains_key(route.full_path()) {
        Some(table[route.full_path()])
    } else if table.contains_key(route.path) {
        Some(table[route.path])
    } else {
        None
    }
}

/// How a registration ends.
pub enum Registration {
    /// The path belongs to the transport.
    Reserved,
    /// The exact path already has a handler.
    Duplicate,
    /// The handler was added.
    Added,
}

/// How registering `path` in `table` ends.
pub open spec fn registration<H>(table: Map<Seq<char>, H>, path: Seq<char>) -> Registration {
    if is_reserved(path) {
        Registration::Reserved
    } else if table.contains_key(path) {
        Registration::Duplicate
    } else {
        Registration::Added
    }
}

/// The table after registering `handler` under `path`: changed only when the
/// registration is accepted.
pub open spec fn registered<H>(table: Map<Seq<char>, H>, path: Seq<char>, handler: H) -> Map<
    Seq<char>,
    H,
> {
    match registration(table, path) {
        Registration::Added => table.insert(path, handler),
        _ => table,
    }
}

/// The message that tells a handler that the sign-in was accepted.
pub open spec fn auth_connected_message() -> WsMessageView {
    WsMessageView {
        route: AUTH_CONNECTED_TOPIC@,
        payload: Some(json_bool_of(true)),
        id: Some(INTERNAL_ID@),
        ref_id: None,
    }
}

/// The route of that message.
pub open spec fn auth_connected_route() -> RouteView {
    RouteView { protocol: INTERNAL_PROTOCOL@, path: AUTH_CONNECTED_PATH@, parameter: None }
}

/// What servicing a message on a reserved path returns: an accepted sign-in is
/// announced to the handler registered under `internal/auth_connected`, whose
/// result is the result; everything else is done with at once.
pub open spec fn serviced<H: Fn(&WsMessage, &Route, &MessageSender) -> Result<(), WsError>>(
    table: Map<Seq<char>, H>,
    route: RouteView,
    sender: &MessageSender,
    result: Result<(), WsError>,
) -> bool {
    if route.path == AUTH_SIGN_IN_PATH@ && route.parameter == Some(AUTH_ACCEPTED@)
        && table.contains_key(AUTH_CONNECTED_PATH@) {
        exists|message: WsMessage, announced: Route|
            message@ == auth_connected_message() && announced@ == auth_connected_route()
                && call_ensures(
                table[AUTH_CONNECTED_PATH@],
                (&message, &announced, sender),
                result,
            )
    } else {
        result is Ok
    }
}

/// What dispatching a message returns.
///
/// A topic that does not parse is an `InvalidPath` error. A message on a
/// reserved path is serviced by the transport and reaches no registered
/// handler of that path. Any other message goes to the handler that `resolve`
/// picks, and the handler's result is the result; without a handler the
/// message is dropped and the dispatch succeeds.
pub open spec fn dispatched<H: Fn(&WsMessage, &Route, &MessageSender) -> Result<(), WsError>>(
    table: Map<Seq<char>, H>,
    message: &WsMessage,
    sender: &MessageSender,
    result: Result<(), WsError>,
) -> bool {
    match parse_topic(message.route@) {
        None => result matches Err(WsError::InvalidPath(topic)) && topic@ == message.route@,
        Some(route) => if is_reserved(route.path) {
            serviced(table, route, sender, result)
        } else {
            match resolve(table, route) {
                Some(handler) => exists|parsed: Route|
                    parsed@ == route && call_ensures(handler, (message, &parsed, sender), result),
                None => result is Ok,
            }
        },
    }
}

/// A second registration of a path is refused as a duplicate and leaves the
/// table as the first one made it: the first handler stays.
pub proof fn lemma_second_registration_refused<H>(
    table: Map<Seq<char>, H>,
    path: Seq<char>,
    first: H,
    second: H,
)
    requires
        registration(table, path) is Added,
    ensures
        registration(registered(table, path, first), path) is Duplicate,
        registered(registered(table, path, first), path, second) == registered(table, path, first),
        registered(table, path, first)[path] == first,
{
}

/// A reserved path is refused whatever the table holds, and never enters it.
pub proof fn lemma_reserved_always_refused<H>(table: Map<Seq<char>, H>, path: Seq<char>, handler: H)
    requires
        is_reserved(path),
    ensures
        registration(table, path) is Reserved,
        registered(table, path, handler) == table,
{
}

/// Registrations never bring a reserved path into a table that holds none.
pub proof fn lemma_registered_keeps_reserved_out<H>(
    table: Map<Seq<char>, H>,
    path: Seq<char>,
    handler: H,
)
    requires
        forall|key: Seq<char>| table.contains_key(key) ==> !is_reserved(key),
    ensures
        forall|key: Seq<char>| #[trigger]
            registered(table, path, handler).contains_key(key) ==> !is_reserved(key),
{
}

/// With handlers for both the full path and the bare path, the one for the
/// full path is chosen.
pub proof fn lemma_exact_handler_preferred<H>(table: Map<Seq<char>, H>, route: RouteView)
    requires
        table.contains_key(route.full_path()),
    ensures
        resolve(table, route) == Some(table[route.full_path()]),
{
}

/// Without a handler for the full path, the one for the bare path is chosen.
pub proof fn lemma_bare_handler_is_fallback<H>(table: Map<Seq<char>, H>, route: RouteView)
    requires
        !table.contains_key(route.full_path()),
        table.contains_key(route.path),
    ensures
        resolve(table, route) == Some(table[route.path]),
{
}

/// One registered handler with its key.
pub struct Entry<H> {
    path: String,
    handler: H,
}

/// The table of handlers.
pub struct Router<H: Fn(&WsMessage, &Route, &MessageSender) -> Result<(), WsError>> {
    entries: Vec<Entry<H>>,
}

impl<H: Fn(&WsMessage, &Route, &MessageSender) -> Result<(), WsError>> View for Router<H> {
    type V = Map<Seq<char>, H>;

    closed spec fn view(&self) -> Map<Seq<char>, H> {
        Map::new(
            |key: Seq<char>| self.position(key) is Some,
            |key: Seq<char>| self.entries[self.position(key)->0].handler,
        )
    }
}

impl<H: Fn(&WsMessage, &Route, &MessageSender) -> Result<(), WsError>> Router<H> {
    /// Keys are distinct and not reserved, and every handler takes every message.
    #[verifier::type_invariant]
    pub closed spec fn well_formed(&self) -> bool {
        &&& forall|i: int, j: int|
            0 <= i < j < self.entries.len() ==> self.entries[i].path@ != self.entries[j].path@
        &&& forall|i: int| 0 <= i < self.entries.len() ==> !is_reserved(#[trigger] self.entries[i].path@)
        &&& forall|i: int| 0 <= i < self.entries.len() ==> accepts_all(#[trigger] self.entries[i].handler)
    }

    /// Where `key` stands in the table, if it does.
    pub closed spec fn position(&self, key: Seq<char>) -> Option<int> {
        if exists|i: int| 0 <= i < self.entries.len() && self.entries[i].path@ == key {
            Some(choose|i: int| 0 <= i < self.entries.len() && self.entries[i].path@ == key)
        } else {
            None
        }
    }

    /// No key of a well-formed table is reserved: a message on a reserved
    /// path finds no handler registered for that path.
    pub proof fn lemma_holds_no_reserved_path(&self)
        requires
            self.well_formed(),
        ensures
            forall|key: Seq<char>| self@.contains_key(key) ==> !is_reserved(key),
    {
        assert forall|key: Seq<char>| self@.contains_key(key) implies !is_reserved(key) by {
            let p = self.position(key)->0;
            assert(self.entries[p].path@ == key);
        }
    }

    /// An empty table.
    pub fn new() -> (router: Router<H>)
        ensures
            router@ == Map::<Seq<char>, H>::empty(),
    {
        let router = Router { entries: Vec::new() };
        assert(router@ =~= Map::<Seq<char>, H>::empty());
        router
    }

    /// The paths that belong to the transport.
    pub fn get_reserved_paths() -> (paths: Vec<&'static str>)
        ensures
            forall|path: Seq<char>|
                is_reserved(path) <==> exists|i: int| 0 <= i < paths.len() && paths[i]@ == path,
    {
        reserved_paths()
    }

    /// Whether `path` belongs to the transport.
    pub fn is_path_reserved(path: &str) -> (reserved: bool)
        ensures
            reserved == is_reserved(path@),
    {
        is_path_reserved(path)
    }

    /// Looks `key` up.
    fn find(&self, key: &str) -> (found: Option<usize>)
        ensures
            match found {
                Some(i) => i < self.entries.len() && self@.contains_key(key@) && self@[key@]
                    == self.entries[i as int].handler && accepts_all(self@[key@]),
                None => !self@.contains_key(key@),
            },
    {
        proof {
            use_type_invariant(self);
        }
        let mut i: usize = 0;
        while i < self.entries.len()
            invariant
                self.well_formed(),
                i <= self.entries.len(),
                forall|j: int| 0 <= j < i ==> self.entries[j].path@ != key@,
            decreases self.entries.len() - i,
        {
            if same_text(self.entries[i].path.as_str(), key) {
                proof {
                    assert(self.entries[i as int].path@ == key@);
                    let p = self.position(key@)->0;
                    assert(0 <= p < self.entries.len() && self.entries[p].path@ == key@);
                    assert(p == i);
                }
                return Some(i);
            }
            i += 1;
        }
        None
    }

    /// Registers `handler` under `path`.
    ///
    /// Fails with `ReservedPath` when the path belongs to the transport, with
    /// `AlreadyRegistered` when the exact path has a handler already; both
    /// carry the path and leave the table as it was.
    pub fn register(&mut self, path: &str, handler: H) -> (result: Result<(), WsError>)
        requires
            accepts_all(handler),
        ensures
            final(self)@ == registered(old(self)@, path@, handler),
            match registration(old(self)@, path@) {
                Registration::Reserved => result matches Err(WsError::ReservedPath(p)) && p@
                    == path@,
                Registration::Duplicate => result matches Err(WsError::AlreadyRegistered(p)) && p@
                    == path@,
                Registration::Added => result is Ok,
            },
    {
        if Self::is_path_reserved(path) {
            return Err(WsError::ReservedPath(path.to_owned()));
        }
        if self.find(path).is_some() {
            return Err(WsError::AlreadyRegistered(path.to_owned()));
        }
        proof {
            use_type_invariant(&*self);
        }
        let ghost before = *self;
        let mut entries: Vec<Entry<H>> = Vec::new();
        std::mem::swap(&mut self.entries, &mut entries);
        entries.push(Entry { path: path.to_owned(), handler });
        proof {
            let n = before.entries.len() as int;
            assert(forall|i: int| 0 <= i < n ==> entries[i] == before.entries[i]);
            assert(entries[n].path@ == path@);
            assert forall|i: int| 0 <= i < n implies before.entries[i].path@ != path@ by {
                if before.entries[i].path@ == path@ {
                    assert(before.position(path@) is Some);
                }
            }
        }
        std::mem::swap(&mut self.entries, &mut entries);
        proof {
            let n = before.entries.len() as int;
            assert(forall|i: int| 0 <= i < n ==> self.entries[i] == before.entries[i]);
            assert(self.entries[n].path@ == path@);
            assert forall|key: Seq<char>| #[trigger]
                self@.contains_key(key) == before@.insert(path@, handler).contains_key(key) by {
                if before.position(key) is Some {
                    let p = before.position(key)->0;
                    assert(self.entries[p].path@ == key);
                }
                if self.position(key) is Some {
                    let p = self.position(key)->0;
                    if p < n {
                        assert(before.entries[p].path@ == key);
                    }
                }
            }
            assert forall|key: Seq<char>| #[trigger]
                self@.contains_key(key) implies self@[key] == before@.insert(path@, handler)[key] by {
                let p = self.position(key)->0;
                if key == path@ {
                    assert(p == n);
                } else {
                    assert(before.entries[p].path@ == key);
                    let q = before.position(key)->0;
                    assert(p == q);
                }
            }
            assert(self@ =~= before@.insert(path@, handler));
        }
        Ok(())
    }

    /// The handler that a message on `route` goes to, if there is one.
    pub fn resolve_handler(&self, route: &Route) -> (handler: Option<&H>)
        ensures
            match handler {
                Some(h) => resolve(self@, route@) == Some(*h) && accepts_all(*h),
                None => resolve(self@, route@) is None,
            },
    {
        let full = route.full_path();
        match self.find(full.as_str()) {
            Some(i) => Some(&self.entries[i].handler),
            None => match self.find(route.base_path()) {
                Some(i) => Some(&self.entries[i].handler),
                None => None,
            },
        }
    }

    /// Dispatches `message`: see `dispatched`.
    pub fn route_message(&self, message: &WsMessage, sender: &MessageSender) -> (result: Result<
        (),
        WsError,
    >)
        ensures
            dispatched(self@, message, sender, result),
    {
        let route = match Route::parse(message.route.as_str()) {
            Ok(route) => route,
            Err(e) => {
                return Err(e);
            },
        };
        if Self::is_path_reserved(route.base_path()) {
            return self.handle_internal_route(&route, message, sender);
        }
        match self.resolve_handler(&route) {
            Some(handler) => handler(message, &route, sender),
            None => Ok(()),
        }
    }

    /// Services a message on a reserved path: see `serviced`.
    pub fn handle_internal_route(
        &self,
        route: &Route,
        _message: &WsMessage,
        sender: &MessageSender,
    ) -> (result: Result<(), WsError>)
        ensures
            serviced(self@, route@, sender, result),
    {
        if !same_text(route.base_path(), AUTH_SIGN_IN_PATH) {
            return Ok(());
        }
        let accepted = match &route.parameter {
            Some(parameter) => same_text(parameter.as_str(), AUTH_ACCEPTED),
            None => false,
        };
        if !accepted {
            return Ok(());
        }
        match self.find(AUTH_CONNECTED_PATH) {
            Some(i) => {
                let announced = Route {
                    protocol: INTERNAL_PROTOCOL.to_owned(),
                    path: AUTH_CONNECTED_PATH.to_owned(),
                    parameter: None,
                };
                let message = WsMessage {
                    route: AUTH_CONNECTED_TOPIC.to_owned(),
                    payload: Some(json_bool(true)),
                    id: Some(INTERNAL_ID.to_owned()),
                    ref_id: None,
                };
                let handler = &self.entries[i].handler;
                handler(&message, &announced, sender)
            },
            None => Ok(()),
        }
    }
}

} // verus!
