//! A client library for the Warframe Market service.
//!
//! The crate holds the rules of the client: how message topics are parsed and
//! routed, how a session moves from anonymous to authenticated, how a
//! connection is supervised, and how responses are classified. Each rule is a
//! function with a contract that Verus proves. Sockets, HTTP and timers live
//! with the caller, which feeds their outcomes to the functions here.

pub mod client;
pub mod error;
pub mod json;
pub mod text;
pub mod types;
pub mod utils;
