//! Core logic of a chat bot that answers two fixed text commands.
//!
//! The library holds everything the bot decides: reading the token out of
//! the configuration value, the one registered command descriptor, the
//! envelopes of the two replies, the per-event handler decision, the
//! message cache, and the dispatch step that ties cache update and
//! handler decision together. Connecting to the gateway and sending the
//! replies over the network live outside the library.

pub mod cache;
pub mod command;
pub mod config;
pub mod dispatch;
pub mod envelope;
pub mod event;
pub mod handler;
pub mod logline;
pub mod replies;
