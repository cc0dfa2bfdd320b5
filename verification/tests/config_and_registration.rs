use rustica::agent::{parse_allowed_signer, GetAllowedSignersStatus};
use rustica::config::{
    build_rustica_settings, AllowedSignersConfiguration, AuthorizationConfiguration,
    ClientAuthorityConfiguration, Configuration, LoggingConfiguration, SignerType,
    SigningConfiguration, FileSignerConfig,
};
use rustica::errors::{ConfigurationError, SigningError};
use rustica::logging::{Config, StdoutLogger};
use rustica::registration::{register_key_decision, RegistrationDecision};
use rustica::signing::{Authority, SignerCapabilities, SshKeyEntry};

fn key_entry(tag: &str) -> SshKeyEntry {
    let key = sshcerts::PrivateKey::new(sshcerts::ssh::KeyTypeKind::Ed25519, tag).unwrap();
    SshKeyEntry {
        pubkey: key.pubkey.to_string().into_bytes(),
        fingerprint: key.pubkey.fingerprint().hash.into_bytes(),
    }
}

fn make_client_ca() -> rcgen::Certificate {
    let mut params = rcgen::CertificateParams::new(Vec::<String>::new());
    params
        .distinguished_name
        .push(rcgen::DnType::CommonName, "Client CA");
    params.is_ca = rcgen::IsCa::Ca(rcgen::BasicConstraints::Unconstrained);
    rcgen::Certificate::from_params(params).unwrap()
}

fn test_configuration() -> Configuration {
    Configuration {
        server_cert: b"server.pem".to_vec(),
        server_key: b"server.key".to_vec(),
        client_authority: ClientAuthorityConfiguration {
            authority: b"default".to_vec(),
            validity_length: 3600,
            expiration_renewal_period: 600,
        },
        listen_address: b"0.0.0.0:50051".to_vec(),
        authorization: AuthorizationConfiguration::LocalDatabase(b"auth.db".to_vec()),
        signing: SigningConfiguration {
            default_authority: b"default".to_vec(),
            authority_configurations: vec![(
                b"default".to_vec(),
                SignerType::File(FileSignerConfig {
                    user_key: Some(b"user.key".to_vec()),
                    host_key: None,
                    x509_certificate_authority: None,
                    client_certificate_authority: Some(b"ca.pem".to_vec()),
                }),
            )],
        },
        require_rustica_proof: false,
        require_attestation_chain: false,
        logging: LoggingConfiguration::Stdout(Config {}),
        allowed_signers: AllowedSignersConfiguration {
            cache_validity_length: 900,
            lru_rate_limiter_size: 16,
            rate_limit_cooldown: 15,
        },
    }
}

fn full_authority(name: &str) -> Authority {
    Authority {
        name: name.as_bytes().to_vec(),
        capabilities: SignerCapabilities {
            user_key: Some(key_entry(&format!("{}-user", name))),
            host_key: Some(key_entry(&format!("{}-host", name))),
            attested_x509_authority: None,
            client_certificate_authority: Some(make_client_ca()),
        },
    }
}

#[test]
fn settings_build_from_a_healthy_configuration() {
    let settings =
        build_rustica_settings(test_configuration(), vec![full_authority("default")]).unwrap();
    assert_eq!(settings.server.hmac_key.len(), 32);
    assert!(!settings.client_ca_cert.is_empty());
    assert_eq!(settings.allowed_signers_cache.expiry_timestamp, 0);
    assert!(settings
        .allowed_signers_cache
        .compressed_allowed_signers
        .is_empty());
    assert_eq!(settings.address, b"0.0.0.0:50051".to_vec());
}

#[test]
fn default_authority_must_have_a_user_key() {
    let mut authority = full_authority("default");
    authority.capabilities.user_key = None;
    let err = match build_rustica_settings(test_configuration(), vec![authority]) {
        Err(e) => e,
        Ok(_) => panic!("a default authority without a user key must fail"),
    };
    assert_eq!(err, ConfigurationError::DefaultAuthorityDoesNotHaveSSHKeys);
}

#[test]
fn client_ca_must_resolve() {
    let mut authority = full_authority("default");
    authority.capabilities.client_certificate_authority = None;
    let err = match build_rustica_settings(test_configuration(), vec![authority]) {
        Err(e) => e,
        Ok(_) => panic!("a missing client CA must fail"),
    };
    match err {
        ConfigurationError::NoSuchSigningMechanismForClientCa(chosen, options) => {
            assert_eq!(chosen, b"default".to_vec());
            assert_eq!(options, vec![b"default".to_vec()]);
        }
        other => panic!("expected NoSuchSigningMechanismForClientCa, got {:?}", other),
    }
}

#[test]
fn duplicated_keys_abort_startup() {
    let mut a = full_authority("default");
    let b = full_authority("second");
    // Make the second authority reuse the first one's user key.
    let mut b = b;
    b.capabilities.user_key = Some(SshKeyEntry {
        pubkey: a.capabilities.user_key.as_ref().unwrap().pubkey.clone(),
        fingerprint: a
            .capabilities
            .user_key
            .as_ref()
            .unwrap()
            .fingerprint
            .clone(),
    });
    a.capabilities.client_certificate_authority = Some(make_client_ca());
    let err = match build_rustica_settings(test_configuration(), vec![a, b]) {
        Err(e) => e,
        Ok(_) => panic!("duplicated keys must fail"),
    };
    match err {
        ConfigurationError::SigningMechanismError(SigningError::DuplicatedKey(x, y)) => {
            assert_eq!(x, b"second".to_vec());
            assert_eq!(y, b"default".to_vec());
        }
        other => panic!("expected DuplicatedKey, got {:?}", other),
    }
}

#[test]
fn registration_decisions() {
    let challenge_fp = b"SHA256:abc".to_vec();
    let matching = b"SHA256:abc".to_vec();
    let other = b"SHA256:zzz".to_vec();
    assert_eq!(
        register_key_decision(Some(&matching), true, &challenge_fp),
        RegistrationDecision::ProceedAttested
    );
    assert_eq!(
        register_key_decision(Some(&other), false, &challenge_fp),
        RegistrationDecision::RejectMismatch
    );
    assert_eq!(
        register_key_decision(None, true, &challenge_fp),
        RegistrationDecision::RejectNoAttestation
    );
    assert_eq!(
        register_key_decision(None, false, &challenge_fp),
        RegistrationDecision::ProceedUnattested
    );
}

#[test]
fn allowed_signer_lines_parse() {
    let key = sshcerts::PrivateKey::new(sshcerts::ssh::KeyTypeKind::Ed25519, "t").unwrap();
    let pubkey_text = key.pubkey.to_string();
    let line = format!("alice@example {}", pubkey_text).into_bytes();
    let (name, pubkey) = parse_allowed_signer(&line).unwrap();
    assert_eq!(name, b"alice@example".to_vec());
    assert_eq!(pubkey, pubkey_text.into_bytes());

    // No space at all: not a signer line.
    assert!(parse_allowed_signer(&b"nospace".to_vec()).is_none());
    // The remainder must be a parsable public key.
    assert!(parse_allowed_signer(&b"alice notakey".to_vec()).is_none());
}

#[test]
fn agent_status_codes() {
    assert_eq!(GetAllowedSignersStatus::Success.code(), 0);
    assert_eq!(GetAllowedSignersStatus::ConfigurationError.code(), 1);
    assert_eq!(GetAllowedSignersStatus::ParameterError.code(), 2);
    assert_eq!(GetAllowedSignersStatus::InternalError.code(), 3);
    assert_eq!(GetAllowedSignersStatus::AllowedSignersFileError.code(), 4);
}

#[test]
fn stdout_logger_constructs() {
    let _ = StdoutLogger::new(Config {});
}
