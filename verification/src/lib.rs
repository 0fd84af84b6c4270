//! A line-oriented chat-relay library: client protocol command dispatch,
//! shared registries and a broadcast bus, a per-connection session state
//! machine, a server-to-server linking protocol, and a globally unique
//! identifier model with its allocator.
//!
//! Every function here is verified; the surrounding daemon (sockets, the
//! async runtime, configuration files) lives outside this crate and only
//! hands plain values in and out.

pub mod bus;
pub mod channels;
pub mod commands;
pub mod config;
pub mod error_structs;
pub mod ids;
pub mod messages;
pub mod registries;
pub mod sender;
pub mod session;
pub mod text;
pub mod ts6;
pub mod user;
pub mod userid_gen;
pub mod usermodes;

pub use ids::ServerId;
pub use ids::UserId;
