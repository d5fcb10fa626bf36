//! The decisions of the plant actors: what a plant does with what its
//! WebSocket delivers and with the commands of its handles, when it sends
//! heartbeats, and what its handles return.

pub mod actor;
pub mod commands;
pub mod requests;
