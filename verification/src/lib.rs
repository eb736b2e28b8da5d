//! A typed client library for driving a blockchain daemon over JSON-RPC.
//!
//! The crate resolves daemon connection credentials from the daemon's
//! installation directory and configuration file, shapes positional RPC
//! argument lists (filling omitted trailing optional arguments from default
//! values), and settles transport outcomes into typed results.  Everything
//! here is verified; the HTTP transport itself and the typed per-call
//! convenience methods are thin unverified glue layered on top.

pub mod chain_config;
pub mod coin_config;
pub mod config;
pub mod dispatch;
pub mod error;
pub mod identity;
pub mod platform;
pub mod text;
pub mod wire;
