//! A tamper-evident, content-addressed authorship registry.
//!
//! Authors anchor cryptographic fingerprints of a paper and of its sections
//! into an append-only store; anyone can later check that a given content
//! fingerprint was registered by a claimed author.  Records are keyed by a
//! deterministic, collision-resistant derivation from the identifying fields,
//! so registering the same content twice necessarily targets the same slot,
//! and admission control is a single atomic create-if-absent step.

pub mod errors;
pub mod hashing;
pub mod keys;
pub mod laws;
pub mod registry;
