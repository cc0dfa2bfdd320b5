//! Error taxonomy of the service.
//!
//! The certificate endpoints report these codes inline in the response body,
//! so the integer value of each variant is part of the wire contract.

use vstd::prelude::*;
use crate::bytesutil::{spec_ascii_bytes, str_to_bytes};

verus! {

/// Stable error taxonomy returned to clients in `error_code`.
#[derive(Clone, Copy, Debug, PartialEq, Eq, Structural)]
pub enum RusticaServerError {
    /// The request was served.
    Success,
    /// Malformed RPC envelope.
    BadRequest,
    /// Any failure within the challenge validation chain; deliberately
    /// coarse so the endpoint is not an oracle.
    BadChallenge,
    /// The challenge freshness window was exceeded.
    TimeExpired,
    /// Invalid validity window, wrong certificate type, or a failed
    /// post-signing self check.
    BadCertOptions,
    /// Authorization backend denial or unknown authority.
    NotAuthorized,
    /// Clock failures and oversized inputs.
    Unknown,
}

/// The wire value of each taxonomy variant.
pub open spec fn spec_error_code(e: RusticaServerError) -> i64 {
    match e {
        RusticaServerError::Success => 0,
        RusticaServerError::BadRequest => 1,
        RusticaServerError::BadChallenge => 2,
        RusticaServerError::TimeExpired => 3,
        RusticaServerError::BadCertOptions => 4,
        RusticaServerError::NotAuthorized => 5,
        RusticaServerError::Unknown => 6,
    }
}

/// The wire name of each taxonomy variant, as the `error` text field
/// reports it.
pub open spec fn spec_error_name(e: RusticaServerError) -> Seq<u8> {
    match e {
        RusticaServerError::Success => spec_ascii_bytes("Success"@),
        RusticaServerError::BadRequest => spec_ascii_bytes("BadRequest"@),
        RusticaServerError::BadChallenge => spec_ascii_bytes("BadChallenge"@),
        RusticaServerError::TimeExpired => spec_ascii_bytes("TimeExpired"@),
        RusticaServerError::BadCertOptions => spec_ascii_bytes("BadCertOptions"@),
        RusticaServerError::NotAuthorized => spec_ascii_bytes("NotAuthorized"@),
        RusticaServerError::Unknown => spec_ascii_bytes("Unknown"@),
    }
}

impl RusticaServerError {
    /// The name reported beside the code in error responses.
    pub fn name(&self) -> (r: Vec<u8>)
        ensures
            r@ == spec_error_name(*self),
    {
        let text: &str = match self {
            RusticaServerError::Success => "Success",
            RusticaServerError::BadRequest => "BadRequest",
            RusticaServerError::BadChallenge => "BadChallenge",
            RusticaServerError::TimeExpired => "TimeExpired",
            RusticaServerError::BadCertOptions => "BadCertOptions",
            RusticaServerError::NotAuthorized => "NotAuthorized",
            RusticaServerError::Unknown => "Unknown",
        };
        proof {
            reveal_strlit("Success");
            reveal_strlit("BadRequest");
            reveal_strlit("BadChallenge");
            reveal_strlit("TimeExpired");
            reveal_strlit("BadCertOptions");
            reveal_strlit("NotAuthorized");
            reveal_strlit("Unknown");
        }
        match str_to_bytes(text) {
            Some(v) => v,
            None => {
                proof {
                    assert(false);
                }
                Vec::new()
            },
        }
    }

    /// The stable integer code placed in `error_code` fields.
    pub fn code(&self) -> (r: i64)
        ensures
            r == spec_error_code(*self),
    {
        match self {
            RusticaServerError::Success => 0,
            RusticaServerError::BadRequest => 1,
            RusticaServerError::BadChallenge => 2,
            RusticaServerError::TimeExpired => 3,
            RusticaServerError::BadCertOptions => 4,
            RusticaServerError::NotAuthorized => 5,
            RusticaServerError::Unknown => 6,
        }
    }
}

/// Failures reported by the authorization backend.
#[derive(Clone, Copy, Debug, PartialEq, Eq, Structural)]
pub enum AuthorizationError {
    CertType,
    NotAuthorized,
    AuthorizerError,
}

/// Turns an authorization failure into the client-visible taxonomy.
pub open spec fn spec_authorization_error_to_server(e: AuthorizationError) -> RusticaServerError {
    match e {
        AuthorizationError::CertType => RusticaServerError::BadCertOptions,
        AuthorizationError::NotAuthorized => RusticaServerError::NotAuthorized,
        AuthorizationError::AuthorizerError => RusticaServerError::Unknown,
    }
}

impl AuthorizationError {
    /// The taxonomy value reported for this authorization failure.
    pub fn to_server_error(&self) -> (r: RusticaServerError)
        ensures
            r == spec_authorization_error_to_server(*self),
    {
        match self {
            AuthorizationError::CertType => RusticaServerError::BadCertOptions,
            AuthorizationError::NotAuthorized => RusticaServerError::NotAuthorized,
            AuthorizationError::AuthorizerError => RusticaServerError::Unknown,
        }
    }
}

/// Failures of the signing registry and its backends.
#[derive(Clone, Debug, PartialEq, Eq)]
pub enum SigningError {
    /// The key material could not be accessed.
    AccessError(Vec<u8>),
    /// The private key could not sign the provided certificate.
    SigningFailure,
    /// Unexpected data could not be parsed.
    ParsingError,
    /// A signing operation named an authority that is not configured.
    UnknownAuthority(Vec<u8>),
    /// Two authorities share an SSH public key; both names are reported.
    DuplicatedKey(Vec<u8>, Vec<u8>),
    /// One authority uses the same key for user and host certificates.
    IdenticalUserAndHostKey(Vec<u8>),
    /// The signer has no SSH key of the requested role.
    SignerDoesNotHaveSSHKeys,
    /// The signer lacks one of the two required SSH keys.
    SignerDoesNotAllRequiredSSHKeys,
}

/// Failures while building a runnable configuration; any of these aborts
/// startup.
#[derive(Clone, Debug, PartialEq, Eq)]
pub enum ConfigurationError {
    FileError,
    ParsingError,
    SSHKeyError,
    InvalidListenAddress,
    AuthorizerError,
    SigningMechanismError(SigningError),
    ValidateOnly,
    DefaultAuthorityDoesNotHaveSSHKeys,
    NoSuchSigningMechanismForClientCa(Vec<u8>, Vec<Vec<u8>>),
}

} // verus!
