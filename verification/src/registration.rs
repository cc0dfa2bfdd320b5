//! Key registration: PIV- or U2F-attested.
//!
//! The attestation chains are verified by external collaborators; the
//! decision of what to do with their result is verified here: an attested
//! key must match the challenge's HMAC-attested key, and an unattested
//! registration is allowed only when the attestation requirement is off.

use vstd::prelude::*;

verus! {

/// The attestation material a registration carries.
#[derive(Debug)]
pub struct KeyAttestation {
    pub certificate: Vec<u8>,
    pub intermediate: Vec<u8>,
}

/// What the authorization backend is asked to register.
#[derive(Debug)]
pub struct RegisterKeyRequestProperties {
    pub fingerprint: Vec<u8>,
    pub pubkey: Vec<u8>,
    pub mtls_identities: Vec<Vec<u8>>,
    pub requester_ip: Vec<u8>,
    pub attestation: Option<KeyAttestation>,
}

/// What the registration endpoint decides after attestation verification.
#[derive(Clone, Copy, Debug, PartialEq, Eq, Structural)]
pub enum RegistrationDecision {
    /// The attestation chain verified and matches the challenge key.
    ProceedAttested,
    /// No valid attestation, but the policy does not require one.
    ProceedUnattested,
    /// The attested key is not the challenge's key; reject as an invalid
    /// argument.
    RejectMismatch,
    /// No valid attestation and the policy requires one; reject as
    /// unavailable.
    RejectNoAttestation,
}

/// Decides a registration request from the attestation verifier's result:
/// a verified attestation must name the challenge's key; a failed
/// verification falls through only when the attestation requirement is
/// off.
pub fn register_key_decision(
    attested_fingerprint: Option<&Vec<u8>>,
    require_attestation_chain: bool,
    challenge_fingerprint: &Vec<u8>,
) -> (r: RegistrationDecision)
    ensures
        ({
            match attested_fingerprint {
                Some(f) => if f@ == challenge_fingerprint@ {
                    r == RegistrationDecision::ProceedAttested
                } else {
                    r == RegistrationDecision::RejectMismatch
                },
                None => if require_attestation_chain {
                    r == RegistrationDecision::RejectNoAttestation
                } else {
                    r == RegistrationDecision::ProceedUnattested
                },
            }
        }),
{
    match attested_fingerprint {
        Some(f) => {
            if *f == *challenge_fingerprint {
                assert(f@ =~= challenge_fingerprint@);
                RegistrationDecision::ProceedAttested
            } else {
                RegistrationDecision::RejectMismatch
            }
        },
        None => {
            if require_attestation_chain {
                RegistrationDecision::RejectNoAttestation
            } else {
                RegistrationDecision::ProceedUnattested
            }
        },
    }
}

} // verus!
