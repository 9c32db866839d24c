//! Core of a stream-watching chat bot: when a monitored user's stream goes
//! live, the voice room they occupy is renamed to a configured "live" name,
//! and restored when they go offline.
//!
//! The crate holds the verified logic: the shared presence store and its
//! operations, the rename/restore decision rules, the event-feed session
//! state machine with its subscription reconciliation, and the bounded
//! message queue that connects the feed side to the chat side.

pub mod auth;
pub mod config;
pub mod discord;
pub mod inter_comm;
pub mod message;
pub mod queue;
pub mod reconciler;
pub mod text;
pub mod websocket;
