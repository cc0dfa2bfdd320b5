//! The client side of the allowed-signers path: fetching errors, the
//! compressed-payload decoder, and parsing of allowed-signer lines.
//!
//! The network call, the runtime handle and the file output live outside
//! the library.

use vstd::prelude::*;
use crate::allowed_signers::{spec_zstd_decompress, zstd_decompress, ZstdDecodeFailure};
use crate::sshkeys::spec_ssh_pubkey_parse;

verus! {

#[verifier::external_type_specification]
#[verifier::external_body]
pub struct ExTonicStatus(tonic::Status);

/// An inline error the server reported.
#[derive(Debug)]
pub struct ServerError {
    pub code: i64,
    pub message: Vec<u8>,
}

/// Why a refresh from the server failed.
#[derive(Debug)]
pub enum RefreshError {
    TransportError,
    SigningError,
    UnsupportedMode,
    InvalidURI,
    UnknownError,
    BadAllowedSigners,
    ConfigurationError(Vec<u8>),
    TransportBadStatus(tonic::Status),
    BadEncodedData(hex::FromHexError),
    RusticaServerError(ServerError),
}

/// Exit codes of the allowed-signers fetch entry point.
#[derive(Clone, Copy, Debug, PartialEq, Eq, Structural)]
pub enum GetAllowedSignersStatus {
    Success,
    ConfigurationError,
    ParameterError,
    InternalError,
    AllowedSignersFileError,
}

/// The exit-code value of each status.
pub open spec fn spec_get_allowed_signers_status_code(s: GetAllowedSignersStatus) -> i32 {
    match s {
        GetAllowedSignersStatus::Success => 0,
        GetAllowedSignersStatus::ConfigurationError => 1,
        GetAllowedSignersStatus::ParameterError => 2,
        GetAllowedSignersStatus::InternalError => 3,
        GetAllowedSignersStatus::AllowedSignersFileError => 4,
    }
}

impl GetAllowedSignersStatus {
    /// The process exit code this status maps to.
    pub fn code(&self) -> (r: i32)
        ensures
            r == spec_get_allowed_signers_status_code(*self),
    {
        match self {
            GetAllowedSignersStatus::Success => 0,
            GetAllowedSignersStatus::ConfigurationError => 1,
            GetAllowedSignersStatus::ParameterError => 2,
            GetAllowedSignersStatus::InternalError => 3,
            GetAllowedSignersStatus::AllowedSignersFileError => 4,
        }
    }
}

/// One server the agent may talk to.
#[derive(Debug)]
pub struct AgentServerConfig {
    pub address: Vec<u8>,
    pub ca: Vec<u8>,
    pub mtls_cert: Vec<u8>,
    pub mtls_key: Vec<u8>,
}

/// The agent's configuration, reloaded from its path when it changes.
#[derive(Debug)]
pub struct UpdatableConfiguration {
    pub path: Vec<u8>,
    pub servers: Vec<AgentServerConfig>,
}

/// What the allowed-signers fetch action needs.
#[derive(Debug)]
pub struct GetAllowedSignersConfig {
    pub updatable_configuration: UpdatableConfiguration,
}

/// Decodes a server's compressed allowed-signers payload: the zstd frame
/// must decompress; the text goes to the caller byte-for-byte. A failed
/// decoder setup is the unknown error; an invalid frame is the
/// bad-signers error.
pub fn decode_allowed_signers(compressed: &Vec<u8>) -> (r: Result<Vec<u8>, RefreshError>)
    ensures
        r matches Ok(v) ==> spec_zstd_decompress(compressed@) == Some(v@),
        (r matches Err(e) && e is BadAllowedSigners) ==> spec_zstd_decompress(compressed@)
            is None,
        r matches Err(e) ==> (e is BadAllowedSigners || e is UnknownError),
{
    match zstd_decompress(compressed) {
        Ok(v) => Ok(v),
        Err(ZstdDecodeFailure::Initialization) => Err(RefreshError::UnknownError),
        Err(ZstdDecodeFailure::InvalidData) => Err(RefreshError::BadAllowedSigners),
    }
}

/// The file-output gate of the fetch loop: an empty decoded payload is
/// not treated as a success.
pub fn allowed_signers_payload_ok(decoded: &Vec<u8>) -> (r: bool)
    ensures
        r <==> decoded@.len() > 0,
{
    decoded.len() > 0
}

/// Where the first space splits a line: the name before it, the rest after
/// it.
pub open spec fn spec_split_first_space(line: Seq<u8>) -> Option<(Seq<u8>, Seq<u8>)> {
    match spec_first_space(line, 0) {
        Some(i) => Some((line.take(i), line.skip(i + 1))),
        None => None,
    }
}

/// The smallest index at or after `k` holding a space.
pub open spec fn spec_first_space(line: Seq<u8>, k: int) -> Option<int>
    decreases line.len() - k,
{
    if k < 0 || k >= line.len() {
        None
    } else if line[k] == 32 {
        Some(k)
    } else {
        spec_first_space(line, k + 1)
    }
}

/// Parses one allowed-signers line: the identity before the first space,
/// the public key after it. Succeeds exactly when a space exists and the
/// remainder parses as an SSH public key.
pub fn parse_allowed_signer(line: &Vec<u8>) -> (r: Option<(Vec<u8>, Vec<u8>)>)
    ensures
        ({
            match spec_split_first_space(line@) {
                None => r is None,
                Some(parts) => if spec_ssh_pubkey_parse(parts.1) is Some {
                    r matches Some(p) && p.0@ == parts.0 && p.1@ == parts.1
                } else {
                    r is None
                },
            }
        }),
{
    let mut i: usize = 0;
    while i < line.len()
        invariant
            0 <= i <= line@.len(),
            spec_first_space(line@, 0) == spec_first_space(line@, i as int),
        decreases line@.len() - i,
    {
        if line[i] == 32 {
            let name = sub_bytes(line, 0, i);
            let rest = sub_bytes(line, i + 1, line.len());
            assert(name@ =~= line@.take(i as int));
            assert(rest@ =~= line@.skip(i + 1));
            if crate::sshkeys::ssh_pubkey_fingerprint(&rest).is_some() {
                return Some((name, rest));
            }
            return None;
        }
        i = i + 1;
    }
    None
}

/// Copies the bytes of `v` between `a` and `b`.
pub fn sub_bytes(v: &Vec<u8>, a: usize, b: usize) -> (r: Vec<u8>)
    requires
        a <= b <= v@.len(),
    ensures
        r@ == v@.subrange(a as int, b as int),
{
    let mut r: Vec<u8> = Vec::new();
    let mut i: usize = a;
    while i < b
        invariant
            a <= i <= b <= v@.len(),
            r@ == v@.subrange(a as int, i as int),
        decreases b - i,
    {
        let x = v[i];
        r.push(x);
        assert(r@ =~= v@.subrange(a as int, i + 1));
        i = i + 1;
    }
    r
}

} // verus!
