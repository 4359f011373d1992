//! A client for line-delimited JSON-RPC tool providers.
//!
//! A provider is an external executable that answers the methods
//! `tools/list` and `tools/call` over its standard streams, one JSON
//! document per line.  The library builds the request lines, interprets
//! the response lines, and drives each one-shot exchange as a state
//! machine: every step of outside work (checking the path, spawning,
//! writing, reading, pausing, terminating) is an [`session::Action`]
//! handed to the caller, whose outcome comes back as an
//! [`session::Event`].  The caller performs the input/output; the
//! protocol decisions are all made, and verified, here.

pub mod json;
pub mod rpc;
pub mod session;
pub mod text;
