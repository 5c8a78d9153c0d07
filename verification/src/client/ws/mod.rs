//! The message transport: topics, messages, routing and the connection life cycle.

pub mod builder;
pub mod connection;
pub mod epoch;
pub mod handle;
pub mod message;
pub mod route;
pub mod router;
pub mod sender;

pub use builder::WsClientBuilder;
pub use handle::WsClient;
pub use message::WsMessage;
pub use route::Route;
pub use sender::MessageSender;
