//! Log events the service emits.
//!
//! Events are plain records; the sinks that format and deliver them
//! (stdout, metrics, webhooks) live outside the library.

use vstd::prelude::*;

verus! {

/// Severity of an internal message.
#[derive(Clone, Copy, Debug, PartialEq, Eq, Structural)]
pub enum Severity {
    Error,
    Warning,
    Info,
}

/// An internal diagnostic message.
pub struct InternalMessage {
    pub severity: Severity,
    pub message: Vec<u8>,
}

/// A key and who presented it.
pub struct KeyInfo {
    pub fingerprint: Vec<u8>,
    pub mtls_identities: Vec<Vec<u8>>,
}

/// A failed key registration.
pub struct KeyRegistrationFailure {
    pub key_info: KeyInfo,
    pub message: Vec<u8>,
}

/// A granted SSH certificate.
pub struct CertificateIssued {
    pub fingerprint: Vec<u8>,
    pub signed_by: Vec<u8>,
    pub authority: Vec<u8>,
    pub serial: u64,
    pub certificate_type: Vec<u8>,
    pub mtls_identities: Vec<Vec<u8>>,
    pub principals: Vec<Vec<u8>>,
    pub extensions: Vec<(Vec<u8>, Vec<u8>)>,
    pub critical_options: Vec<(Vec<u8>, Vec<u8>)>,
    pub valid_after: u64,
    pub valid_before: u64,
    pub new_access_certificate_issued: bool,
}

/// A granted attested X.509 certificate.
pub struct X509CertificateIssued {
    pub authority: Vec<u8>,
    pub mtls_identities: Vec<Vec<u8>>,
    pub extensions: Vec<(Vec<u8>, Vec<u8>)>,
    pub valid_after: u64,
    pub valid_before: u64,
    pub serial: u64,
}

/// A periodic liveness beat.
pub struct Heartbeat {}

/// Everything the service logs.
pub enum Log {
    CertificateIssued(CertificateIssued),
    X509CertificateIssued(X509CertificateIssued),
    KeyRegistered(KeyInfo),
    KeyRegistrationFailure(KeyRegistrationFailure),
    InternalMessage(InternalMessage),
    Heartbeat(Heartbeat),
}

/// A log event together with the emitting service's identity.
pub struct WrappedLog {
    pub log: Log,
    pub identifier: Vec<u8>,
}

/// Why a sink could not deliver a log.
#[derive(Clone, Copy, Debug, PartialEq, Eq, Structural)]
pub enum LoggingError {
    SerializationError,
    TransportError,
}

/// Configuration of the stdout sink; it has no knobs.
pub struct Config {}

/// The sink that prints events to standard output. Formatting and printing
/// happen outside the library.
pub struct StdoutLogger {}

impl StdoutLogger {
    /// A stdout sink; the configuration carries nothing.
    pub fn new(_config: Config) -> (r: StdoutLogger)
        ensures
            r == (StdoutLogger {  }),
    {
        StdoutLogger {  }
    }
}

} // verus!
