//! An append-only, tamper-evident sequence of records, each bound to its
//! predecessor by a SHA-256 fingerprint, with a deterministic rule for
//! adopting a competing sequence that claims the same origin.

pub mod chain;
pub mod fingerprint;
