//! Watches a program's transaction log stream for token-creation events,
//! enriches each event with transaction details fetched over RPC, applies a
//! quality threshold, and forwards accepted events to a webhook notifier.
//!
//! This crate holds the verified pipeline logic: the subscriber's content
//! filter, the byte-level metadata decoder, the enrichment facts, the retry
//! state machines, and the accept/reject decision. The surrounding process
//! (stream connection, RPC transport, HTTP delivery) lives outside the crate
//! and hands plain values in and out.

pub mod alert;
mod codecs;
pub mod decoder;
pub mod enrich;
pub mod event;
pub mod fetch;
pub mod filter;
pub mod notify;
pub mod processor;
pub mod strutil;

pub use codecs::base58_decoded;
pub use codecs::base64_decoded;
