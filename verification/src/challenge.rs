//! The challenge proof-of-possession protocol.
//!
//! A challenge binds `(timestamp, requested public key, caller identities)`
//! with an HMAC tag carried in the key id of a zero-validity SSH host
//! certificate. The server keeps no per-challenge state: validation
//! recomputes the tag from the presented values and compares it, in order,
//! with freshness and size guards first.

use vstd::prelude::*;
use crate::bytesutil::{
    clone_bytes, join_bytes, parse_u64_decimal, push_all, spec_join, spec_parse_u64,
    spec_u64_decimal, u64_to_decimal,
};
use crate::errors::RusticaServerError;
use crate::hexcode::{
    hex_decode, hex_encode, lemma_hex_round_trip, spec_hex_decode, spec_hex_encode, spec_valid_hex,
};
use crate::hmac::{hmac_sha256_sign, hmac_sha256_verify, spec_hmac_sha256};
use crate::mtls::{parse_x509_cert, spec_parse_x509_cert};
use crate::sshkeys::{
    mint_challenge_cert, parse_ssh_cert, spec_parse_ssh_cert, spec_ssh_pubkey_parse, ChallengeKey,
    SshCertView,
};

verus! {

/// The serial every challenge certificate carries.
pub const CHALLENGE_SERIAL: u64 = 0xFEFEFEFEFEFEFEFE;

/// Longest accepted peer-supplied public key or challenge certificate.
pub const MAX_PEER_INPUT_LEN: usize = 1024;

/// Seconds a challenge stays valid.
pub const CHALLENGE_WINDOW_SECS: u64 = 5;

/// The challenge message a caller returns: the timestamp string it was
/// given, the public key it claims, and the (possibly re-signed) challenge
/// certificate.
#[derive(Debug)]
pub struct ChallengeMessage {
    pub challenge_time: Vec<u8>,
    pub pubkey: Vec<u8>,
    pub challenge: Vec<u8>,
}

/// What the challenge endpoint returns to the caller.
#[derive(Debug)]
pub struct ChallengeResponseData {
    /// The issuing timestamp, in decimal.
    pub time: Vec<u8>,
    /// The serialized challenge certificate.
    pub challenge: Vec<u8>,
    /// Whether the caller may return the certificate unsigned.
    pub no_signature_required: bool,
}

/// Validity bounds for an opportunistically reissued mTLS certificate.
#[derive(Debug)]
pub struct CertificateRefreshSettings {
    pub not_before: u64,
    pub not_after: u64,
}

/// What a validated challenge yields: the HMAC-attested public key string,
/// its fingerprint, the caller's identities, and the reissuance hint.
#[derive(Debug)]
pub struct ValidatedChallenge {
    pub pubkey: Vec<u8>,
    pub fingerprint: Vec<u8>,
    pub identities: Vec<Vec<u8>>,
    pub refresh: Option<CertificateRefreshSettings>,
}

/// The string that is HMAC'd: `"{t}-{pubkey}-{identities joined by ,}"`.
pub open spec fn spec_challenge_string(t: u64, pubkey: Seq<u8>, identities: Seq<Seq<u8>>) -> Seq<
    u8,
> {
    spec_u64_decimal(t as nat) + seq![45u8] + pubkey + seq![45u8] + spec_join(identities, 44u8)
}

/// The key id a challenge minted from these values carries.
pub open spec fn spec_challenge_key_id(
    hmac_key: Seq<u8>,
    t: u64,
    pubkey: Seq<u8>,
    identities: Seq<Seq<u8>>,
) -> Seq<u8> {
    spec_hex_encode(spec_hmac_sha256(hmac_key, spec_challenge_string(t, pubkey, identities)))
}

/// Builds the challenge string `"{t}-{pubkey}-{identities joined by ,}"`.
pub fn build_challenge_string(t: u64, pubkey: &Vec<u8>, identities: &Vec<Vec<u8>>) -> (r: Vec<u8>)
    ensures
        r@ == spec_challenge_string(t, pubkey@, identities@.map_values(|v: Vec<u8>| v@)),
{
    let mut r = u64_to_decimal(t);
    r.push(45);
    push_all(&mut r, pubkey);
    r.push(45);
    let joined = join_bytes(identities, 44);
    push_all(&mut r, &joined);
    assert(r@ =~= spec_challenge_string(t, pubkey@, identities@.map_values(|v: Vec<u8>| v@)));
    r
}

/// Mints a challenge for a requested public key: rejects oversized or
/// unparsable keys, HMAC-tags the challenge string, and builds the
/// zero-validity host certificate carrying the tag in its key id.
///
/// Failures are reported as `NotAuthorized`; the transport layer turns
/// them into an opaque permission-denied status.
pub fn create_challenge(
    hmac_key: &Vec<u8>,
    challenge_key: &ChallengeKey,
    require_rustica_proof: bool,
    pubkey: &Vec<u8>,
    identities: &Vec<Vec<u8>>,
    now: u64,
) -> (r: Result<ChallengeResponseData, RusticaServerError>)
    ensures
        pubkey@.len() > MAX_PEER_INPUT_LEN ==> r is Err,
        spec_ssh_pubkey_parse(pubkey@) is None ==> r is Err,
        r matches Err(e) ==> e == RusticaServerError::NotAuthorized,
        r matches Ok(resp) ==> {
            &&& pubkey@.len() <= MAX_PEER_INPUT_LEN
            &&& spec_ssh_pubkey_parse(pubkey@) is Some
            &&& resp.time@ == spec_u64_decimal(now as nat)
            &&& resp.no_signature_required == !require_rustica_proof
            &&& spec_parse_ssh_cert(resp.challenge@) == Some(
                SshCertView {
                    key_id: spec_challenge_key_id(
                        hmac_key@,
                        now,
                        pubkey@,
                        identities@.map_values(|v: Vec<u8>| v@),
                    ),
                    key_fp: spec_ssh_pubkey_parse(pubkey@).unwrap(),
                    sig_key_fp: challenge_key.spec_pubkey_fingerprint(),
                    cert_type: 2u32,
                    serial: CHALLENGE_SERIAL,
                    valid_after: 0u64,
                    valid_before: 0u64,
                    principals: Seq::empty(),
                    critical_options: Set::empty(),
                    extensions: Set::empty(),
                },
            )
        },
{
    if pubkey.len() > MAX_PEER_INPUT_LEN {
        return Err(RusticaServerError::NotAuthorized);
    }
    if crate::sshkeys::ssh_pubkey_fingerprint(pubkey).is_none() {
        return Err(RusticaServerError::NotAuthorized);
    }
    let challenge_string = build_challenge_string(now, pubkey, identities);
    let tag = hmac_sha256_sign(hmac_key, &challenge_string);
    let key_id = hex_encode(&tag);
    match mint_challenge_cert(challenge_key, pubkey, &key_id, CHALLENGE_SERIAL, 0, 0) {
        Some(cert) => Ok(
            ChallengeResponseData {
                time: u64_to_decimal(now),
                challenge: cert,
                no_signature_required: !require_rustica_proof,
            },
        ),
        None => Err(RusticaServerError::NotAuthorized),
    }
}

/// The reissuance hint: settings when the peer certificate has expired or
/// expires within the renewal period, `None` otherwise.
pub open spec fn spec_refresh(now: u64, expiry: i64, renewal: u64, validity: u64) -> Option<
    (u64, u64),
> {
    if now > (expiry as u64) || (expiry as u64) - now < renewal {
        Some((now, (now + validity) as u64))
    } else {
        None
    }
}

/// The outcome of a validated challenge, as plain values.
pub ghost struct ValidatedChallengeView {
    pub pubkey: Seq<u8>,
    pub fingerprint: Seq<u8>,
    pub identities: Seq<Seq<u8>>,
    pub refresh: Option<(u64, u64)>,
}

/// The whole ordered validation pipeline as a function of its inputs:
/// exactly one peer certificate, then freshness, size guard, certificate
/// parse, HMAC tag, attested key, and the fingerprint checks. Each arm
/// mirrors one step; the first failing step names the error.
pub open spec fn spec_validate_request(
    hmac_key: Seq<u8>,
    challenge_key_fp: Seq<u8>,
    require_proof: bool,
    renewal: u64,
    validity: u64,
    peers: Seq<Seq<u8>>,
    challenge_time: Seq<u8>,
    pubkey: Seq<u8>,
    challenge: Seq<u8>,
    now: u64,
) -> Result<ValidatedChallengeView, RusticaServerError> {
    if peers.len() != 1 {
        Err(RusticaServerError::BadRequest)
    } else if spec_parse_x509_cert(peers[0]) is None {
        Err(RusticaServerError::NotAuthorized)
    } else {
        let peer = spec_parse_x509_cert(peers[0]).unwrap();
        if spec_parse_u64(challenge_time) is None {
            Err(RusticaServerError::Unknown)
        } else {
            let t = spec_parse_u64(challenge_time).unwrap();
            if vstd::wrapping::u64_specs::wrapping_sub(now, t) > CHALLENGE_WINDOW_SECS {
                Err(RusticaServerError::TimeExpired)
            } else if challenge.len() > MAX_PEER_INPUT_LEN {
                Err(RusticaServerError::Unknown)
            } else if spec_parse_ssh_cert(challenge) is None {
                Err(RusticaServerError::BadChallenge)
            } else {
                let cert = spec_parse_ssh_cert(challenge).unwrap();
                if !spec_valid_hex(cert.key_id) {
                    Err(RusticaServerError::BadChallenge)
                } else if spec_hex_decode(cert.key_id) != spec_hmac_sha256(
                    hmac_key,
                    spec_challenge_string(t, pubkey, peer.identities),
                ) {
                    Err(RusticaServerError::BadChallenge)
                } else if spec_ssh_pubkey_parse(pubkey) is None {
                    Err(RusticaServerError::BadChallenge)
                } else {
                    let fp = spec_ssh_pubkey_parse(pubkey).unwrap();
                    let outcome = ValidatedChallengeView {
                        pubkey: pubkey,
                        fingerprint: fp,
                        identities: peer.identities,
                        refresh: spec_refresh(now, peer.not_after, renewal, validity),
                    };
                    if !require_proof {
                        if cert.sig_key_fp != challenge_key_fp {
                            Err(RusticaServerError::BadChallenge)
                        } else {
                            Ok(outcome)
                        }
                    } else {
                        if !(cert.key_fp == cert.sig_key_fp) {
                            Err(RusticaServerError::BadChallenge)
                        } else if cert.key_fp != fp {
                            Err(RusticaServerError::BadChallenge)
                        } else {
                            Ok(outcome)
                        }
                    }
                }
            }
        }
    }
}

/// The mathematical view of an exec validation outcome.
pub open spec fn spec_validated_view(v: ValidatedChallenge) -> ValidatedChallengeView {
    ValidatedChallengeView {
        pubkey: v.pubkey@,
        fingerprint: v.fingerprint@,
        identities: v.identities@.map_values(|i: Vec<u8>| i@),
        refresh: match v.refresh {
            Some(s) => Some((s.not_before, s.not_after)),
            None => None,
        },
    }
}

/// Validates a returned challenge, in the pipeline order of
/// `spec_validate_request`: peer certificate, freshness, size guard,
/// certificate parse (which checks its inner signature), HMAC tag,
/// attested public key, and the proof-of-possession fingerprint checks.
pub fn validate_request(
    hmac_key: &Vec<u8>,
    challenge_key: &ChallengeKey,
    require_rustica_proof: bool,
    expiration_renewal_period: u64,
    validity_length: u64,
    peers: &Vec<Vec<u8>>,
    message: &ChallengeMessage,
    now: u64,
) -> (r: Result<ValidatedChallenge, RusticaServerError>)
    requires
        now + validity_length <= u64::MAX,
    ensures
        ({
            let outcome = spec_validate_request(
                hmac_key@,
                challenge_key.spec_pubkey_fingerprint(),
                require_rustica_proof,
                expiration_renewal_period,
                validity_length,
                peers@.map_values(|p: Vec<u8>| p@),
                message.challenge_time@,
                message.pubkey@,
                message.challenge@,
                now,
            );
            match r {
                Ok(v) => outcome == Ok::<ValidatedChallengeView, RusticaServerError>(
                    spec_validated_view(v),
                ),
                Err(e) => outcome == Err::<ValidatedChallengeView, _>(e),
            }
        }),
{
    let ghost peers_view = peers@.map_values(|p: Vec<u8>| p@);
    // The caller must present exactly one mTLS certificate.
    if peers.len() != 1 {
        return Err(RusticaServerError::BadRequest);
    }
    let peer_der = &peers[0];
    assert(peer_der@ == peers_view[0]);
    let peer = match parse_x509_cert(peer_der) {
        Some(c) => c,
        None => {
            return Err(RusticaServerError::NotAuthorized);
        },
    };
    let request_time = match parse_u64_decimal(&message.challenge_time) {
        Some(t) => t,
        None => {
            return Err(RusticaServerError::Unknown);
        },
    };
    if now.wrapping_sub(request_time) > CHALLENGE_WINDOW_SECS {
        return Err(RusticaServerError::TimeExpired);
    }
    if message.challenge.len() > MAX_PEER_INPUT_LEN {
        return Err(RusticaServerError::Unknown);
    }
    let cert = match parse_ssh_cert(&message.challenge) {
        Some(c) => c,
        None => {
            return Err(RusticaServerError::BadChallenge);
        },
    };
    let decoded_tag = match hex_decode(&cert.key_id) {
        Ok(tag) => tag,
        Err(_) => {
            return Err(RusticaServerError::BadChallenge);
        },
    };
    let verification = build_challenge_string(request_time, &message.pubkey, &peer.identities);
    if !hmac_sha256_verify(hmac_key, &verification, &decoded_tag) {
        return Err(RusticaServerError::BadChallenge);
    }
    let fingerprint = match crate::sshkeys::ssh_pubkey_fingerprint(&message.pubkey) {
        Some(fp) => fp,
        None => {
            return Err(RusticaServerError::BadChallenge);
        },
    };
    let expiry = peer.not_after;
    let refresh: Option<CertificateRefreshSettings> = if now > i64_to_u64_wrapping(expiry) || (
    i64_to_u64_wrapping(expiry) - now) < expiration_renewal_period {
        Some(CertificateRefreshSettings { not_before: now, not_after: now + validity_length })
    } else {
        None
    };
    if !require_rustica_proof {
        // Sanity check that this certificate was signed by the process
        // challenge key.
        if !(cert.sig_key_fp == *challenge_key.pubkey_fingerprint()) {
            return Err(RusticaServerError::BadChallenge);
        }
        assert(cert.sig_key_fp@ =~= challenge_key.spec_pubkey_fingerprint());
        let v = ValidatedChallenge {
            pubkey: clone_bytes(&message.pubkey),
            fingerprint,
            identities: peer.identities,
            refresh,
        };
        return Ok(v);
    }
    // The caller must have re-signed the certificate with the key it is
    // proving ownership of: subject key, signing key and HMAC-attested key
    // must all coincide.
    if !(cert.key_fp == cert.sig_key_fp) {
        return Err(RusticaServerError::BadChallenge);
    }
    assert(cert.key_fp@ =~= cert.sig_key_fp@);
    if !(cert.key_fp == fingerprint) {
        return Err(RusticaServerError::BadChallenge);
    }
    assert(cert.key_fp@ =~= fingerprint@);
    let v = ValidatedChallenge {
        pubkey: clone_bytes(&message.pubkey),
        fingerprint,
        identities: peer.identities,
        refresh,
    };
    Ok(v)
}

/// Casts a timestamp to unsigned with two's-complement wrapping, as the
/// expiry comparison does.
fn i64_to_u64_wrapping(x: i64) -> (r: u64)
    ensures
        r == x as u64,
{
    #[verifier::truncate]
    (x as u64)
}

/// For every challenge minted at time `t` for `(pubkey, identities)` under
/// `hmac_key`, and returned unmodified with values `(t, pubkey2,
/// identities2)` reconstructible from the peer certificate and message,
/// validation without proof-of-possession at time `now` succeeds exactly
/// when the challenge is fresh (`now - t <= 5`, wrapping) and the
/// recomputed HMAC tag over the presented values equals the minted tag.
pub proof fn lemma_challenge_validation_iff(
    hmac_key: Seq<u8>,
    challenge_key_fp: Seq<u8>,
    renewal: u64,
    validity: u64,
    peers: Seq<Seq<u8>>,
    t: u64,
    pubkey: Seq<u8>,
    pubkey2: Seq<u8>,
    challenge: Seq<u8>,
    now: u64,
)
    requires
        peers.len() == 1,
        spec_parse_x509_cert(peers[0]) is Some,
        challenge.len() <= MAX_PEER_INPUT_LEN,
        spec_ssh_pubkey_parse(pubkey2) is Some,
        // The minted challenge certificate, as issued for `(t, pubkey)` and
        // the caller's identities, still signed by the challenge key.
        spec_parse_ssh_cert(challenge) matches Some(cert) && cert.key_id
            == spec_challenge_key_id(
            hmac_key,
            t,
            pubkey,
            spec_parse_x509_cert(peers[0]).unwrap().identities,
        ) && cert.sig_key_fp == challenge_key_fp,
    ensures
        ({
            let ids = spec_parse_x509_cert(peers[0]).unwrap().identities;
            let outcome = spec_validate_request(
                hmac_key,
                challenge_key_fp,
                false,
                renewal,
                validity,
                peers,
                spec_u64_decimal(t as nat),
                pubkey2,
                challenge,
                now,
            );
            outcome is Ok <==> {
                &&& vstd::wrapping::u64_specs::wrapping_sub(now, t) <= CHALLENGE_WINDOW_SECS
                &&& spec_hmac_sha256(hmac_key, spec_challenge_string(t, pubkey2, ids))
                    == spec_hmac_sha256(hmac_key, spec_challenge_string(t, pubkey, ids))
            }
        }),
        vstd::wrapping::u64_specs::wrapping_sub(now, t) > CHALLENGE_WINDOW_SECS
            ==> spec_validate_request(
            hmac_key,
            challenge_key_fp,
            false,
            renewal,
            validity,
            peers,
            spec_u64_decimal(t as nat),
            pubkey2,
            challenge,
            now,
        ) == Err::<ValidatedChallengeView, _>(RusticaServerError::TimeExpired),
        ({
            let ids = spec_parse_x509_cert(peers[0]).unwrap().identities;
            (vstd::wrapping::u64_specs::wrapping_sub(now, t) <= CHALLENGE_WINDOW_SECS
                && spec_hmac_sha256(hmac_key, spec_challenge_string(t, pubkey2, ids))
                != spec_hmac_sha256(hmac_key, spec_challenge_string(t, pubkey, ids)))
                ==> spec_validate_request(
                hmac_key,
                challenge_key_fp,
                false,
                renewal,
                validity,
                peers,
                spec_u64_decimal(t as nat),
                pubkey2,
                challenge,
                now,
            ) == Err::<ValidatedChallengeView, _>(RusticaServerError::BadChallenge)
        }),
{
    crate::bytesutil::lemma_parse_of_rendering(t);
    let cert = spec_parse_ssh_cert(challenge).unwrap();
    let ids = spec_parse_x509_cert(peers[0]).unwrap().identities;
    let minted_tag = spec_hmac_sha256(hmac_key, spec_challenge_string(t, pubkey, ids));
    lemma_hex_round_trip(minted_tag);
    assert(spec_valid_hex(cert.key_id));
    assert(spec_hex_decode(cert.key_id) == minted_tag);
}

} // verus!
