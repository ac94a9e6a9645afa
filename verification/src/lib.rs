//! A message hub's addressing and dispatch rules.
//!
//! Clients of the hub exchange short messages over one shared bus. Each
//! message names its source and its destination; a destination is a client,
//! the hub's own registry, or every client at once. This crate holds the
//! rules of that exchange: what a message is and how it is rendered on the
//! wire, how a connection reacts to what its socket and the bus hand it, and
//! what the registry publishes in reply to a message addressed to it.

pub mod bus;
pub mod client;
pub mod laws;
pub mod message;
pub mod registry;
pub mod wire;
