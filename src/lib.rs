//! Monitoring of a server-side model download from a thin client.
//!
//! The library holds the decision logic of a download session: the event
//! consumer with its timeout budget and status deduplication, the
//! cancellation watcher, and the pure renderer that turns progress
//! snapshots into operator-facing text.

pub mod cancel;
pub mod consumer;
pub mod event;
pub mod format;
pub mod laws;
pub mod render;
pub mod text;
