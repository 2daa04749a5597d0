//! A line-oriented chat service: the wire protocol, the shared registry of
//! connected peers, and the per-connection protocol state machine.
pub mod client;
pub mod codec;
pub mod error;
pub mod input;
pub mod message;
pub mod protocol;
pub mod registry;
pub mod session;
pub mod utils;
