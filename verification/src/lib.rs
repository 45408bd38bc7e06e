//! A minimal peer-session coordinator for lobby-based peer messaging.
//!
//! Asynchronous completion callbacks of an external session provider deposit
//! their results into a [`bridge::SessionBridge`]; a single polling thread
//! drains the bridge once per tick through a [`coordinator::LobbyCoordinator`],
//! which owns the session lifecycle and turns outcomes into notifications.

pub mod bridge;
pub mod coordinator;
pub mod errors;
pub mod session;
