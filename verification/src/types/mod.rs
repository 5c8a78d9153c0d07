//! The records that the service and the client exchange.

pub mod filter;
pub mod http;
pub mod item;
pub mod request;
pub mod riven;
pub mod transaction;
pub mod user;
