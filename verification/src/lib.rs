//! Real-time synchronisation core of a shared tracking service: rooms of
//! users record one numeric entry per calendar date, and every member of a
//! room sees updates live.
//!
//! The crate holds the wire protocol, the connection registry with its
//! broadcast fan-out, the per-connection session rules, the entry store with
//! its audit log, and the room aggregation query. Transport and persistence
//! are the caller's business: everything here works on plain values.

pub mod api;
pub mod db;
pub mod entry_event;
pub mod error;
pub mod json;
pub mod object_id;
pub mod order;
pub mod registry;
pub mod room_id;
pub mod schemes;
pub mod session;
pub mod views;
pub mod wire;
