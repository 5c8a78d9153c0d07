//! Configuration of a transport before it is started: the handlers and the
//! credential that the connection signs in with.

use crate::client::ws::message::WsMessage;
use crate::client::ws::route::Route;
use crate::client::ws::router::{
    accepts_all, is_reserved, registration, reserved_paths, Registration, Router,
};
use crate::client::ws::sender::MessageSender;
use crate::error::WsError;
use vstd::prelude::*;

verus! {

/// A transport in the making.
pub struct WsClientBuilder<H: Fn(&WsMessage, &Route, &MessageSender) -> Result<(), WsError>> {
    router: Router<H>,
    token: String,
    device_id: String,
}

impl<H: Fn(&WsMessage, &Route, &MessageSender) -> Result<(), WsError>> WsClientBuilder<H> {
    /// The handlers registered so far.
    pub closed spec fn handlers(&self) -> Map<Seq<char>, H> {
        self.router@
    }

    /// The credential that the connection signs in with.
    pub closed spec fn token(&self) -> Seq<char> {
        self.token@
    }

    /// The device that the connection signs in as.
    pub closed spec fn device_id(&self) -> Seq<char> {
        self.device_id@
    }

    /// A builder without handlers.
    pub fn new(token: String, device_id: String) -> (builder: WsClientBuilder<H>)
        ensures
            builder.handlers() == Map::<Seq<char>, H>::empty(),
            builder.token() == token@,
            builder.device_id() == device_id@,
    {
        WsClientBuilder { router: Router::new(), token, device_id }
    }

    /// Registers `callback` under `path`, which is a bare path
    /// (`cmd/subscribe/newOrders`, for every parameter) or a path with a
    /// parameter (`cmd/subscribe/newOrders:ok`, for that parameter only).
    ///
    /// Fails with `ReservedPath` when the path belongs to the transport and
    /// with `AlreadyRegistered` when the exact path has a handler already;
    /// both carry the path.
    pub fn register_callback(self, path: &str, callback: H) -> (result: Result<
        WsClientBuilder<H>,
        WsError,
    >)
        requires
            accepts_all(callback),
        ensures
            match registration(self.handlers(), path@) {
                Registration::Reserved => result matches Err(WsError::ReservedPath(p)) && p@
                    == path@,
                Registration::Duplicate => result matches Err(WsError::AlreadyRegistered(p)) && p@
                    == path@,
                Registration::Added => result matches Ok(builder) && builder.handlers()
                    == self.handlers().insert(path@, callback) && builder.token() == self.token()
                    && builder.device_id() == self.device_id(),
            },
    {
        let mut builder = self;
        match builder.router.register(path, callback) {
            Ok(()) => Ok(builder),
            Err(e) => Err(e),
        }
    }

    /// The paths that belong to the transport.
    pub fn get_reserved_paths() -> (paths: Vec<&'static str>)
        ensures
            forall|path: Seq<char>|
                is_reserved(path) <==> exists|i: int| 0 <= i < paths.len() && paths[i]@ == path,
    {
        reserved_paths()
    }

    /// Hands the handlers and the credential to whoever runs the connection.
    pub fn into_parts(self) -> (parts: (Router<H>, String, String))
        ensures
            parts.0@ == self.handlers(),
            parts.1@ == self.token(),
            parts.2@ == self.device_id(),
    {
        (self.router, self.token, self.device_id)
    }
}

} // verus!
