//! The protocol engine of a server for the Hotline chat and file-sharing
//! protocol: the transaction framing and field codec, the access-mask wire
//! form, password obfuscation, sessions and their registry, the handlers'
//! decisions, and the events that fan out to every connection.
use vstd::prelude::*;

pub mod access;
pub mod password;
pub mod text;
pub mod types;
pub mod error;
pub mod wire;
pub mod field;
pub mod transaction;
pub mod codec;
pub mod handshake;
pub mod date;
pub mod user;
pub mod chat;
pub mod file;
pub mod session;
pub mod registry;
pub mod replies;
pub mod broadcast;
pub mod account;
pub mod lookup;
pub mod handlers;
pub mod console;
pub mod config;
pub mod tracker_config;
pub mod db;

verus! {

} // verus!
