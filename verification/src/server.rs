//! The server's verified endpoint cores.
//!
//! The transport layer owns the sockets, the peer-certificate plumbing and
//! the asynchronous backend calls; each handler passes the peer's DER
//! certificates, the message payload and the current time down to these
//! methods and sends back what they return.

use vstd::prelude::*;
use crate::bytesutil::spec_u64_decimal;
use crate::challenge::{
    create_challenge, spec_challenge_key_id, spec_validate_request, spec_validated_view,
    validate_request, ChallengeMessage, ChallengeResponseData, ValidatedChallenge,
    ValidatedChallengeView, MAX_PEER_INPUT_LEN,
};
pub use crate::config::RusticaServer;
use crate::errors::RusticaServerError;
use crate::sshkeys::{spec_parse_ssh_cert, spec_ssh_pubkey_parse, SshCertView};

verus! {

impl RusticaServer {
    /// The challenge endpoint's core: mints a challenge certificate for
    /// the requested key under this server's HMAC and challenge keys.
    pub fn challenge(&self, pubkey: &Vec<u8>, identities: &Vec<Vec<u8>>, now: u64) -> (r: Result<
        ChallengeResponseData,
        RusticaServerError,
    >)
        ensures
            pubkey@.len() > MAX_PEER_INPUT_LEN ==> r is Err,
            spec_ssh_pubkey_parse(pubkey@) is None ==> r is Err,
            r matches Err(e) ==> e == RusticaServerError::NotAuthorized,
            r matches Ok(resp) ==> {
                &&& resp.time@ == spec_u64_decimal(now as nat)
                &&& resp.no_signature_required == !self.require_rustica_proof
                &&& spec_parse_ssh_cert(resp.challenge@) == Some(
                    SshCertView {
                        key_id: spec_challenge_key_id(
                            self.hmac_key@,
                            now,
                            pubkey@,
                            identities@.map_values(|v: Vec<u8>| v@),
                        ),
                        key_fp: spec_ssh_pubkey_parse(pubkey@).unwrap(),
                        sig_key_fp: self.challenge_key.spec_pubkey_fingerprint(),
                        cert_type: 2u32,
                        serial: crate::challenge::CHALLENGE_SERIAL,
                        valid_after: 0u64,
                        valid_before: 0u64,
                        principals: Seq::empty(),
                        critical_options: Set::empty(),
                        extensions: Set::empty(),
                    },
                )
            },
    {
        create_challenge(
            &self.hmac_key,
            &self.challenge_key,
            self.require_rustica_proof,
            pubkey,
            identities,
            now,
        )
    }

    /// The ordered validation of a returned challenge, as
    /// `spec_validate_request` lays it out over this server's keys and
    /// reissuance policy.
    pub fn validate_challenge(
        &self,
        peers: &Vec<Vec<u8>>,
        message: &ChallengeMessage,
        now: u64,
    ) -> (r: Result<ValidatedChallenge, RusticaServerError>)
        requires
            now + self.client_authority.validity_length <= u64::MAX,
        ensures
            ({
                let outcome = spec_validate_request(
                    self.hmac_key@,
                    self.challenge_key.spec_pubkey_fingerprint(),
                    self.require_rustica_proof,
                    self.client_authority.expiration_renewal_period,
                    self.client_authority.validity_length,
                    peers@.map_values(|p: Vec<u8>| p@),
                    message.challenge_time@,
                    message.pubkey@,
                    message.challenge@,
                    now,
                );
                match r {
                    Ok(v) => outcome == Ok::<ValidatedChallengeView, RusticaServerError>(
                        spec_validated_view(v),
                    ),
                    Err(e) => outcome == Err::<ValidatedChallengeView, _>(e),
                }
            }),
    {
        validate_request(
            &self.hmac_key,
            &self.challenge_key,
            self.require_rustica_proof,
            self.client_authority.expiration_renewal_period,
            self.client_authority.validity_length,
            peers,
            message,
            now,
        )
    }
}

} // verus!
