//! The authorization backends the service can consult.
//!
//! Both backends answer asynchronously and are driven outside the library;
//! these types carry their configuration and selection.

use vstd::prelude::*;

verus! {

/// A local SQLite-style authorization database.
#[derive(Debug)]
pub struct LocalDatabase {
    pub path: Vec<u8>,
}

/// A remote authorization service reached over mutually-authenticated RPC.
#[derive(Debug)]
pub struct AuthServer {
    pub server: Vec<u8>,
    pub port: Vec<u8>,
    pub ca: Vec<u8>,
    pub mtls_cert: Vec<u8>,
    pub mtls_key: Vec<u8>,
}

/// Which authorization backend the service consults.
#[derive(Debug)]
pub enum AuthMechanism {
    Local(LocalDatabase),
    External(AuthServer),
}

} // verus!
