//! Deduplication and rendering of cluster lifecycle events.
//!
//! Events arrive with at-least-once delivery. Each one is normalized,
//! reduced to a 64-bit content fingerprint, and checked against an index of
//! fingerprints already seen: a novel event becomes a styled log line, a
//! re-delivery becomes a short diagnostic.
pub mod event;
pub mod fingerprint;
pub mod dedup;
pub mod severity;
pub mod render;
pub mod processor;
