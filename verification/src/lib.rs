//! A local control plane for a media player application.
//!
//! External local processes (browser helpers, auth redirects, companion
//! tools) drive the player over a small HTTP interface.  The player state
//! itself lives inside a single-threaded UI runtime that cannot be called
//! into from arbitrary threads, so operations that must run there are
//! marshalled through a bridge: a script is handed to the UI runtime and
//! the calling thread awaits a correlated reply with a bounded timeout.
//!
//! This crate holds the verified logic of that control plane:
//! - `router`: maps an HTTP method and path to a domain command;
//! - `response`: turns command outcomes into HTTP status, body and headers;
//! - `lifecycle`: the idempotent start/stop/status state machine of the
//!   listening server;
//! - `channel` and `bridge`: the single-slot correlation channel and the
//!   single-flight bridge protocol built on it;
//! - `auth`: the token-extraction and state machine of the auth callback;
//! - `text` and `parse`: the character, splitting and numeric-parsing
//!   helpers the router is built on;
//! - `jsonval`: the trusted interface to the JSON values collaborators
//!   return.
//!
//! The `airplay`, `discord` and `plugin` modules hold the data types of the
//! host application's neighbouring integrations.  The HTTP listener itself,
//! the UI runtime, and the playback engine are unverified collaborators
//! around this library.

pub mod airplay;
pub mod auth;
pub mod bridge;
pub mod channel;
pub mod discord;
pub mod jsonval;
pub mod lifecycle;
pub mod parse;
pub mod plugin;
pub mod response;
pub mod router;
pub mod text;
