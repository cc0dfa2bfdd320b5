//! A just-in-time SSH and X.509 certificate authority core.
//!
//! The library holds the verified heart of the service: the challenge
//! proof-of-possession protocol, the certificate issuance pipeline, the
//! signing-authority registry with its startup invariants, and the cached,
//! rate-limited allowed-signers distribution path. Network transport,
//! configuration loading and the asynchronous backend calls live outside the
//! library and hand it plain values.

pub mod agent;
pub mod allowed_signers;
pub mod auth;
pub mod bytesutil;
pub mod challenge;
pub mod config;
pub mod errors;
pub mod hexcode;
pub mod hmac;
pub mod issuance;
pub mod logging;
pub mod mtls;
pub mod rate_limit;
pub mod registration;
pub mod server;
pub mod signing;
pub mod sshkeys;
pub mod x509_issue;
pub mod x509ca;
