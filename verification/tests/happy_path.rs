//! The whole SSH issuance pipeline on one request, with the asynchronous
//! backend steps played by the test: challenge, validation,
//! pre-authorization, composition, signing and the final self check.

use rustica::challenge::ChallengeMessage;
use rustica::config::{
    build_rustica_settings, AllowedSignersConfiguration, AuthorizationConfiguration,
    ClientAuthorityConfiguration, Configuration, FileSignerConfig, LoggingConfiguration,
    SignerType, SigningConfiguration,
};
use rustica::issuance::{
    certificate_finalize, certificate_pre_authorize, compose_certificate, Authorization,
    CertificateRequestData,
};
use rustica::mtls::extract_certificate_information;
use rustica::signing::{Authority, CertType, SignerCapabilities, SshKeyEntry};

#[test]
fn ssh_issuance_end_to_end() {
    // The signing authority and the process state.
    let ca_key = sshcerts::PrivateKey::new(sshcerts::ssh::KeyTypeKind::Ed25519, "ca").unwrap();
    let mut client_ca_params = rcgen::CertificateParams::new(Vec::<String>::new());
    client_ca_params
        .distinguished_name
        .push(rcgen::DnType::CommonName, "Client CA");
    client_ca_params.is_ca = rcgen::IsCa::Ca(rcgen::BasicConstraints::Unconstrained);
    let client_ca = rcgen::Certificate::from_params(client_ca_params).unwrap();

    let configuration = Configuration {
        server_cert: b"server.pem".to_vec(),
        server_key: b"server.key".to_vec(),
        client_authority: ClientAuthorityConfiguration {
            authority: b"default".to_vec(),
            validity_length: 3600,
            expiration_renewal_period: 600,
        },
        listen_address: b"0.0.0.0:50051".to_vec(),
        authorization: AuthorizationConfiguration::LocalDatabase(b"auth.db".to_vec()),
        signing: SigningConfiguration {
            default_authority: b"default".to_vec(),
            authority_configurations: vec![(
                b"default".to_vec(),
                SignerType::File(FileSignerConfig {
                    user_key: Some(b"user.key".to_vec()),
                    host_key: None,
                    x509_certificate_authority: None,
                    client_certificate_authority: Some(b"ca.pem".to_vec()),
                }),
            )],
        },
        require_rustica_proof: false,
        require_attestation_chain: false,
        logging: LoggingConfiguration::Stdout(rustica::logging::Config {}),
        allowed_signers: AllowedSignersConfiguration {
            cache_validity_length: 900,
            lru_rate_limiter_size: 16,
            rate_limit_cooldown: 15,
        },
    };
    let authorities = vec![Authority {
        name: b"default".to_vec(),
        capabilities: SignerCapabilities {
            user_key: Some(SshKeyEntry {
                pubkey: ca_key.pubkey.to_string().into_bytes(),
                fingerprint: ca_key.pubkey.fingerprint().hash.clone().into_bytes(),
            }),
            host_key: None,
            attested_x509_authority: None,
            client_certificate_authority: Some(client_ca),
        },
    }];
    let server = build_rustica_settings(configuration, authorities)
        .unwrap_or_else(|e| panic!("test configuration must build: {:?}", e))
        .server;

    // The caller's identity and key.
    let mut peer_params = rcgen::CertificateParams::new(Vec::<String>::new());
    peer_params
        .distinguished_name
        .push(rcgen::DnType::CommonName, "alice@example");
    let peer = rcgen::Certificate::from_params(peer_params)
        .unwrap()
        .serialize_der()
        .unwrap();
    let identities = extract_certificate_information(&peer).unwrap().identities;
    let caller = sshcerts::PrivateKey::new(sshcerts::ssh::KeyTypeKind::Ed25519, "alice").unwrap();
    let pubkey = caller.pubkey.to_string().into_bytes();
    let now: u64 = 1700000000;

    // Challenge, returned unmodified within the window.
    let challenge = server.challenge(&pubkey, &identities, now).unwrap();
    let message = ChallengeMessage {
        challenge_time: challenge.time,
        pubkey: pubkey.clone(),
        challenge: challenge.challenge,
    };
    let validated = server
        .validate_challenge(&vec![peer], &message, now + 1)
        .unwrap();

    // The certificate request and its pre-authorization.
    let request = CertificateRequestData {
        cert_type: 1,
        key_id: Vec::new(),
        principals: vec![b"alice".to_vec()],
        servers: Vec::new(),
        valid_after: now,
        valid_before: now + 3600,
    };
    let (props, ca_fp) = certificate_pre_authorize(
        &server.signer,
        &request,
        &validated.fingerprint,
        &validated.identities,
        &b"10.0.0.1:40000".to_vec(),
        now + 1,
    )
    .unwrap();
    assert_eq!(ca_fp, ca_key.pubkey.fingerprint().hash.clone().into_bytes());

    // What the authorization backend grants.
    let authorization = Authorization {
        serial: 7,
        valid_before: now + 3600,
        valid_after: now,
        principals: vec![b"alice".to_vec()],
        hosts: None,
        extensions: Vec::new(),
        force_command: None,
        force_source_ip: false,
        authority: b"default".to_vec(),
    };
    // The backend signs with the authorization-chosen authority's key;
    // the self check holds the result to that key.
    let signer_fp = ca_key.pubkey.fingerprint().hash.clone().into_bytes();
    let template = compose_certificate(
        &authorization,
        &validated.pubkey,
        &validated.fingerprint,
        &signer_fp,
        &b"10.0.0.1".to_vec(),
        props.cert_type,
    );

    // The signing backend turns the template into a signed certificate.
    let signed = sshcerts::Certificate::builder(
        &caller.pubkey,
        sshcerts::CertType::User,
        &ca_key.pubkey,
    )
    .unwrap()
    .serial(template.serial)
    .key_id(String::from_utf8(template.key_id.clone()).unwrap())
    .set_principals(&[String::from("alice")])
    .valid_after(template.valid_after)
    .valid_before(template.valid_before)
    .sign(&ca_key)
    .unwrap();
    let issued = certificate_finalize(format!("{}", signed).into_bytes(), &template).unwrap();

    // The issued certificate round-trips with the authorized contents.
    let parsed =
        sshcerts::Certificate::from_string(std::str::from_utf8(&issued).unwrap()).unwrap();
    assert_eq!(parsed.serial, 7);
    assert_eq!(parsed.principals, vec![String::from("alice")]);
    assert!(parsed.key_id.starts_with("Rustica-JITC-for-"));
    assert_eq!(
        parsed.key.fingerprint().hash,
        caller.pubkey.fingerprint().hash,
        "the subject key is the HMAC-attested key"
    );
    assert_eq!(
        parsed.signature_key.fingerprint().hash,
        ca_key.pubkey.fingerprint().hash,
        "signed by the default authority's user key"
    );
    assert_eq!(parsed.valid_after, now);
    assert_eq!(parsed.valid_before, now + 3600);
}
