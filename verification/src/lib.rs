//! Core of a real-time lobby broker: an ordered registry of tables, a
//! directory of connected client sessions with point-to-point send and
//! subscriber broadcast, and a role-gated command dispatcher that decides,
//! for every inbound command, the direct reply, the broadcast event and the
//! session-state change that result.

pub mod lobby;
pub mod service;
pub mod protocol;
pub mod session;
