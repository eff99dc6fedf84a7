//! Hammer Editor MCP server: the verified core.
//!
//! The library holds the protocol logic of the MCP bridge to a Hammer
//! synchronisation server: the request each API call makes, how each
//! status code is read, the sync-session bookkeeping of the tools, the
//! tool argument handling and the JSON-RPC routing. Network and stdio
//! stay with the binary, which hands the library plain values.

pub mod text;
pub mod models;
pub mod json;
pub mod client;
pub mod sessions;
pub mod config;
pub mod server;
pub mod tools;
pub mod replies;
pub mod dispatch;
pub mod laws;
pub mod mcp;
