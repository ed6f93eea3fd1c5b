//! Verified KPI computation with signed attestations.
//!
//! The library classifies accounting documents, computes a cumulative
//! key-performance indicator in fixed-point arithmetic, commits to the raw
//! input bytes with a cryptographic digest, and packages the result as a
//! signed, fixed-width attestation suitable for submission to a ledger.

pub mod attestation;
pub mod crypto;
pub mod document;
pub mod fixed;
pub mod kpi;
