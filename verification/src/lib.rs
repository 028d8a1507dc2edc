//! Decision logic of a chat bot that relays torrent sources to a torrent
//! daemon's HTTP management interface.
//!
//! The crate holds no I/O. A host program delivers chat events and HTTP
//! answers as plain values and carries out the actions that the functions
//! here ask for.

pub mod client;
pub mod commands;
pub mod config;
pub mod dispatch;
pub mod number;
pub mod state;
pub mod text;
pub mod util;

pub use crate::config::Configuration;
