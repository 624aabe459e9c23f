//! The decisions of a small gossip chat: which peers are dialed and when a dial is answered, how
//! messages are named by their content, and what the terminal shows.
//!
//! Sockets, channels and the terminal belong to the program around this crate. It hands plain
//! values in and performs what comes back.

pub mod address;
pub mod bootstrap;
pub mod chat;
pub mod laws;
pub mod message;
pub mod network;
pub mod pending;
