use rustica::challenge::ChallengeMessage;
use rustica::config::{
    build_rustica_settings, AllowedSignersConfiguration, AuthorizationConfiguration,
    ClientAuthorityConfiguration, Configuration, FileSignerConfig, LoggingConfiguration,
    RusticaServer, SignerType, SigningConfiguration,
};
use rustica::errors::RusticaServerError;
use rustica::mtls::extract_certificate_information;
use rustica::signing::{Authority, SignerCapabilities, SshKeyEntry};

fn peer_cert_der(common_name: &str) -> Vec<u8> {
    let mut params = rcgen::CertificateParams::new(Vec::<String>::new());
    params
        .distinguished_name
        .push(rcgen::DnType::CommonName, common_name);
    rcgen::Certificate::from_params(params)
        .unwrap()
        .serialize_der()
        .unwrap()
}

fn make_client_ca() -> rcgen::Certificate {
    let mut params = rcgen::CertificateParams::new(Vec::<String>::new());
    params
        .distinguished_name
        .push(rcgen::DnType::CommonName, "Client CA");
    params.is_ca = rcgen::IsCa::Ca(rcgen::BasicConstraints::Unconstrained);
    rcgen::Certificate::from_params(params).unwrap()
}

fn test_server(require_rustica_proof: bool) -> RusticaServer {
    let ca_key = sshcerts::PrivateKey::new(sshcerts::ssh::KeyTypeKind::Ed25519, "ca").unwrap();
    let configuration = Configuration {
        server_cert: b"server.pem".to_vec(),
        server_key: b"server.key".to_vec(),
        client_authority: ClientAuthorityConfiguration {
            authority: b"default".to_vec(),
            validity_length: 3600,
            expiration_renewal_period: 600,
        },
        listen_address: b"0.0.0.0:50051".to_vec(),
        authorization: AuthorizationConfiguration::LocalDatabase(b"auth.db".to_vec()),
        signing: SigningConfiguration {
            default_authority: b"default".to_vec(),
            authority_configurations: vec![(
                b"default".to_vec(),
                SignerType::File(FileSignerConfig {
                    user_key: Some(b"user.key".to_vec()),
                    host_key: None,
                    x509_certificate_authority: None,
                    client_certificate_authority: Some(b"ca.pem".to_vec()),
                }),
            )],
        },
        require_rustica_proof,
        require_attestation_chain: false,
        logging: LoggingConfiguration::Stdout(rustica::logging::Config {}),
        allowed_signers: AllowedSignersConfiguration {
            cache_validity_length: 900,
            lru_rate_limiter_size: 16,
            rate_limit_cooldown: 15,
        },
    };
    let authorities = vec![Authority {
        name: b"default".to_vec(),
        capabilities: SignerCapabilities {
            user_key: Some(SshKeyEntry {
                pubkey: ca_key.pubkey.to_string().into_bytes(),
                fingerprint: ca_key.pubkey.fingerprint().hash.into_bytes(),
            }),
            host_key: None,
            attested_x509_authority: None,
            client_certificate_authority: Some(make_client_ca()),
        },
    }];
    build_rustica_settings(configuration, authorities)
        .unwrap_or_else(|e| panic!("test configuration must build: {:?}", e))
        .server
}

fn caller_key() -> sshcerts::PrivateKey {
    sshcerts::PrivateKey::new(sshcerts::ssh::KeyTypeKind::Ed25519, "caller").unwrap()
}

#[test]
fn challenge_key_id_is_hex_hmac_tag() {
    // The minted certificate's key id carries the hex-encoded HMAC tag:
    // 64 lowercase hex digits for a SHA-256 tag, and a fresh tag for a
    // different timestamp.
    let server = test_server(false);
    let ids = vec![b"alice@example".to_vec()];
    let pubkey = caller_key().pubkey.to_string().into_bytes();
    let resp = server.challenge(&pubkey, &ids, 1700000000).unwrap();
    let cert = sshcerts::Certificate::from_string(
        std::str::from_utf8(&resp.challenge).unwrap(),
    )
    .unwrap();
    assert_eq!(cert.key_id.len(), 64);
    assert!(cert
        .key_id
        .bytes()
        .all(|b| b.is_ascii_digit() || (b'a'..=b'f').contains(&b)));
    assert_eq!(cert.serial, 0xFEFEFEFEFEFEFEFE);
    assert_eq!(cert.valid_after, 0);
    assert_eq!(cert.valid_before, 0);

    let resp2 = server.challenge(&pubkey, &ids, 1700000001).unwrap();
    let cert2 = sshcerts::Certificate::from_string(
        std::str::from_utf8(&resp2.challenge).unwrap(),
    )
    .unwrap();
    assert_ne!(cert.key_id, cert2.key_id, "the tag binds the timestamp");
}

#[test]
fn peer_identities_extracted_in_order() {
    let der = peer_cert_der("alice@example");
    let info = extract_certificate_information(&der).unwrap();
    assert_eq!(info.identities, vec![b"alice@example".to_vec()]);
    assert!(extract_certificate_information(&b"not a cert".to_vec()).is_err());
}

#[test]
fn challenge_happy_path_without_proof() {
    let server = test_server(false);
    let peer = peer_cert_der("alice@example");
    let ids = extract_certificate_information(&peer).unwrap().identities;
    let key = caller_key();
    let pubkey = key.pubkey.to_string().into_bytes();
    let now: u64 = 1700000000;

    let resp = server.challenge(&pubkey, &ids, now).unwrap();
    assert!(resp.no_signature_required);
    assert_eq!(resp.time, b"1700000000".to_vec());

    let message = ChallengeMessage {
        challenge_time: resp.time.clone(),
        pubkey: pubkey.clone(),
        challenge: resp.challenge.clone(),
    };
    let validated = server
        .validate_challenge(&vec![peer.clone()], &message, now + 2)
        .unwrap();
    assert_eq!(validated.identities, vec![b"alice@example".to_vec()]);
    assert_eq!(
        validated.fingerprint,
        key.pubkey.fingerprint().hash.into_bytes()
    );
}

#[test]
fn challenge_expires_after_window() {
    let server = test_server(false);
    let peer = peer_cert_der("alice@example");
    let ids = extract_certificate_information(&peer).unwrap().identities;
    let pubkey = caller_key().pubkey.to_string().into_bytes();
    let now: u64 = 1700000000;

    let resp = server.challenge(&pubkey, &ids, now).unwrap();
    let message = ChallengeMessage {
        challenge_time: resp.time,
        pubkey,
        challenge: resp.challenge,
    };
    let err = server
        .validate_challenge(&vec![peer], &message, now + 6)
        .unwrap_err();
    assert_eq!(err, RusticaServerError::TimeExpired);
}

#[test]
fn tampered_pubkey_is_a_bad_challenge() {
    let server = test_server(false);
    let peer = peer_cert_der("alice@example");
    let ids = extract_certificate_information(&peer).unwrap().identities;
    let key = caller_key();
    let other = caller_key();
    let pubkey = key.pubkey.to_string().into_bytes();
    let now: u64 = 1700000000;

    let resp = server.challenge(&pubkey, &ids, now).unwrap();
    // Swap in a different (but well-formed) public key: the HMAC no longer
    // covers it.
    let message = ChallengeMessage {
        challenge_time: resp.time,
        pubkey: other.pubkey.to_string().into_bytes(),
        challenge: resp.challenge,
    };
    let err = server
        .validate_challenge(&vec![peer], &message, now + 1)
        .unwrap_err();
    assert_eq!(err, RusticaServerError::BadChallenge);
}

#[test]
fn unsigned_return_fails_when_proof_required() {
    let server = test_server(true);
    let peer = peer_cert_der("alice@example");
    let ids = extract_certificate_information(&peer).unwrap().identities;
    let pubkey = caller_key().pubkey.to_string().into_bytes();
    let now: u64 = 1700000000;

    let resp = server.challenge(&pubkey, &ids, now).unwrap();
    assert!(!resp.no_signature_required);
    // Sending back the server-signed certificate unmodified must fail: the
    // caller has not proven possession.
    let message = ChallengeMessage {
        challenge_time: resp.time,
        pubkey,
        challenge: resp.challenge,
    };
    let err = server
        .validate_challenge(&vec![peer], &message, now + 1)
        .unwrap_err();
    assert_eq!(err, RusticaServerError::BadChallenge);
}

#[test]
fn resigned_challenge_passes_proof_of_possession() {
    let server = test_server(true);
    let peer = peer_cert_der("alice@example");
    let ids = extract_certificate_information(&peer).unwrap().identities;
    let key = caller_key();
    let pubkey = key.pubkey.to_string().into_bytes();
    let now: u64 = 1700000000;

    let resp = server.challenge(&pubkey, &ids, now).unwrap();
    // Re-sign the challenge with the caller's own key, keeping the key id
    // (and so the HMAC tag) intact.
    let minted =
        sshcerts::Certificate::from_string(std::str::from_utf8(&resp.challenge).unwrap()).unwrap();
    let resigned = sshcerts::Certificate::builder(
        &key.pubkey,
        sshcerts::CertType::Host,
        &key.pubkey,
    )
    .unwrap()
    .serial(minted.serial)
    .key_id(minted.key_id.clone())
    .valid_after(0)
    .valid_before(0)
    .sign(&key)
    .unwrap();

    let message = ChallengeMessage {
        challenge_time: resp.time,
        pubkey,
        challenge: format!("{}", resigned).into_bytes(),
    };
    let validated = server
        .validate_challenge(&vec![peer], &message, now + 1)
        .unwrap();
    assert_eq!(
        validated.fingerprint,
        key.pubkey.fingerprint().hash.into_bytes()
    );
}

#[test]
fn oversized_pubkey_rejected_at_mint() {
    let server = test_server(false);
    let pubkey = vec![b'a'; 1025];
    let err = server
        .challenge(&pubkey, &vec![b"alice".to_vec()], 5)
        .unwrap_err();
    assert_eq!(err, RusticaServerError::NotAuthorized);
}

#[test]
fn reissuance_hint_when_peer_cert_near_expiry() {
    // An rcgen certificate from default params is valid up to 4096; with a
    // renewal period wider than that horizon the hint must appear.
    let mut server = test_server(false);
    server.client_authority.expiration_renewal_period = u64::MAX / 4;
    let peer = peer_cert_der("alice@example");
    let ids = extract_certificate_information(&peer).unwrap().identities;
    let pubkey = caller_key().pubkey.to_string().into_bytes();
    let now: u64 = 1700000000;

    let resp = server.challenge(&pubkey, &ids, now).unwrap();
    let message = ChallengeMessage {
        challenge_time: resp.time,
        pubkey,
        challenge: resp.challenge,
    };
    let validated = server
        .validate_challenge(&vec![peer.clone()], &message, now + 1)
        .unwrap();
    let refresh = validated.refresh.expect("a reissuance hint was due");
    assert_eq!(refresh.not_before, now + 1);
    assert_eq!(refresh.not_after, now + 1 + 3600);

    // With a tiny renewal period and a far-future peer certificate there is
    // no hint.
    server.client_authority.expiration_renewal_period = 1;
    let resp = server.challenge(&message.pubkey, &ids, now).unwrap();
    let message2 = ChallengeMessage {
        challenge_time: resp.time,
        pubkey: message.pubkey.clone(),
        challenge: resp.challenge,
    };
    let validated = server
        .validate_challenge(&vec![peer], &message2, now + 1)
        .unwrap();
    assert!(validated.refresh.is_none());
}

#[test]
fn multiple_peer_certificates_are_a_bad_request() {
    let server = test_server(false);
    let peer = peer_cert_der("alice@example");
    let second = peer_cert_der("mallory@example");
    let ids = extract_certificate_information(&peer).unwrap().identities;
    let pubkey = caller_key().pubkey.to_string().into_bytes();
    let now: u64 = 1700000000;
    let resp = server.challenge(&pubkey, &ids, now).unwrap();
    let message = ChallengeMessage {
        challenge_time: resp.time,
        pubkey,
        challenge: resp.challenge,
    };
    // Exactly one peer certificate is accepted; two are a bad request.
    let err = server
        .validate_challenge(&vec![peer, second], &message, now + 1)
        .unwrap_err();
    assert_eq!(err, RusticaServerError::BadRequest);
}

#[test]
fn missing_peer_certificate_is_a_bad_request() {
    let server = test_server(false);
    let message = ChallengeMessage {
        challenge_time: b"5".to_vec(),
        pubkey: b"k".to_vec(),
        challenge: b"c".to_vec(),
    };
    let err = server.validate_challenge(&vec![], &message, 6).unwrap_err();
    assert_eq!(err, RusticaServerError::BadRequest);
}

#[test]
fn unparsable_time_is_unknown() {
    let server = test_server(false);
    let peer = peer_cert_der("alice@example");
    let message = ChallengeMessage {
        challenge_time: b"not-a-number".to_vec(),
        pubkey: b"k".to_vec(),
        challenge: b"c".to_vec(),
    };
    let err = server
        .validate_challenge(&vec![peer], &message, 6)
        .unwrap_err();
    assert_eq!(err, RusticaServerError::Unknown);
}

#[test]
fn oversized_challenge_certificate_is_unknown() {
    let server = test_server(false);
    let peer = peer_cert_der("alice@example");
    let message = ChallengeMessage {
        challenge_time: b"1700000000".to_vec(),
        pubkey: b"k".to_vec(),
        challenge: vec![b'x'; 1025],
    };
    let err = server
        .validate_challenge(&vec![peer], &message, 1700000001)
        .unwrap_err();
    assert_eq!(err, RusticaServerError::Unknown);
}
