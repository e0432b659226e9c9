//! A broadcast chat relay: every text message one connection sends is
//! published, prefixed with its sender's name, to every subscribed connection.
//!
//! The crate holds the rules of a connection's life: the identity handshake,
//! the task that listens to a peer and the task that forwards to it. Each rule
//! is a function from what a read or a receive produced to what must happen
//! next, so the caller owns the sockets and the waiting, and this crate owns
//! every decision.

pub mod channel;
pub mod frame;
pub mod handshake;
pub mod listener;
pub mod messager;
