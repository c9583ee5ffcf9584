//! Versioned event normalization and capability-gated dispatch for a ledger
//! node's notification adapter.
//!
//! The host hands the adapter one of several wire versions of each event
//! kind. Each extractor collapses every supported version into one canonical
//! record, rejects retired versions, and checks cross-field consistency. The
//! lifecycle controller gates notifications on load and unload, and on the
//! per-kind capability flags fixed at construction.

pub mod encode;
pub mod extract;
pub mod kinds;
pub mod laws;
pub mod lifecycle;
pub mod payload;
