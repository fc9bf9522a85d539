//! A single-room, line-oriented chat service core: wire codec, username
//! registry, room queue, broadcast dispatch, rate limiting, and the
//! per-connection protocol state machine.

pub mod acceptor;
pub mod broker;
pub mod client_protocol;
pub mod config;
pub mod connection;
pub mod consts;
pub mod message;
pub mod rate_limiter;
pub mod room;
pub mod security;
pub mod server_protocol;
pub mod strings;
pub mod tcp_message;
pub mod user;
