//! Encrypted OAuth token lifecycle for a file-synchronisation worker.
//!
//! The crate is the decision core of a queue consumer: it seals and opens
//! bearer tokens, keeps the per-owner integration table, decides when a
//! provider round trip is needed, decodes queue events and tells the driver
//! which message may be acknowledged.  Everything that touches a socket or a
//! disk is left to the driver, which hands plain values in and takes plain
//! values back.

pub mod config;
pub mod consumer;
pub mod db;
pub mod json;
pub mod messages;
pub mod onedrive;
pub mod queue;
pub mod time;
