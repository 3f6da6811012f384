//! Bridge between a screen-capture daemon's frame stream and HTTP clients.
//!
//! The library holds the decisions: how the banner and the length-prefixed
//! frames are cut out of the byte stream, how the one-second throughput
//! window rolls, what the shared "latest frame" cell holds, and how a request
//! is routed and answered. Sockets, locks and the device live with the caller.

pub mod byte_stream;
pub mod frame_buf;
pub mod frame_reader;
pub mod input;
pub mod json;
pub mod lifecycle;
pub mod minicap_client;
pub mod models;
pub mod relay;
pub mod response;
mod text;
pub mod web_server;
pub mod wire;
