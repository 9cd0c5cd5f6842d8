//! Verified core of the AG-UI (Agent User Interaction) protocol: identifiers,
//! messages, run inputs and events; the client's protocol verifier, tool
//! call filter and event handling; and the server's event-stream
//! finalization and compaction, JSON Patch state changes, SSE encoding,
//! request metadata and endpoint decisions.

pub mod error;
pub mod ids;
pub mod json;
pub mod text;
pub mod message;
pub mod input;
pub mod event;
pub mod capabilities;
pub mod verify;
pub mod filter;
pub mod event_handler;
pub mod server_middleware;
pub mod encoder;
pub mod agent;
pub mod handler;
pub mod finalize;
pub mod compact;
pub mod state;
