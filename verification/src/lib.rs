//! A minimal extensible HTTP server core: inbound requests are routed to
//! the first registered plugin that declares itself able to process them,
//! with a fixed fallback response when none does.
//!
//! The crate holds the verified core — the plugin capability contract, the
//! ordered registry with its first-match-wins dispatch, and the
//! server-facing adapter. Binding a socket and parsing HTTP are left to an
//! unverified shell around this library, which hands requests in as plain
//! values and sends the returned responses back out.

pub mod http;
pub mod plugin;
pub mod plugin_echo;
pub mod plugin_manager;
pub mod server;
