//! A verified core for a webhook-to-command relay.
//!
//! The library holds the per-delivery logic of the relay: hex decoding of
//! signature headers, HMAC-SHA1 verification of request bodies, lookup of the
//! command configured for an event, and the single decision of whether a
//! delivery may dispatch its command. The HTTP server, the configuration
//! file, and the subprocess that runs the command live outside the library
//! and hand it plain bytes.

pub mod bytes;
pub mod config;
pub mod handler;
pub mod hex;
pub mod signature;
