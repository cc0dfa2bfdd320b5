use rustica::errors::RusticaServerError;
use rustica::issuance::{
    certificate_finalize, certificate_pre_authorize, compose_certificate, create_response,
    Authorization, CertificateRequestData,
};
use rustica::signing::{
    convert_to_signing_mechanism, Authority, CertType, SignerCapabilities, SigningMechanism,
    SshKeyEntry,
};

fn ssh_key(tag: &str) -> sshcerts::PrivateKey {
    sshcerts::PrivateKey::new(sshcerts::ssh::KeyTypeKind::Ed25519, tag).unwrap()
}

fn registry_with_user_key(ca: &sshcerts::PrivateKey) -> SigningMechanism {
    let authorities = vec![Authority {
        name: b"default".to_vec(),
        capabilities: SignerCapabilities {
            user_key: Some(SshKeyEntry {
                pubkey: ca.pubkey.to_string().into_bytes(),
                fingerprint: ca.pubkey.fingerprint().hash.clone().into_bytes(),
            }),
            host_key: None,
            attested_x509_authority: None,
            client_certificate_authority: None,
        },
    }];
    convert_to_signing_mechanism(b"default".to_vec(), authorities).unwrap()
}

fn request(cert_type: u32, valid_after: u64, valid_before: u64) -> CertificateRequestData {
    CertificateRequestData {
        cert_type,
        key_id: Vec::new(),
        principals: vec![b"alice".to_vec()],
        servers: Vec::new(),
        valid_after,
        valid_before,
    }
}

#[test]
fn error_codes_are_stable() {
    assert_eq!(create_response(RusticaServerError::Success).error_code, 0);
    assert_eq!(create_response(RusticaServerError::BadRequest).error_code, 1);
    assert_eq!(create_response(RusticaServerError::BadChallenge).error_code, 2);
    assert_eq!(create_response(RusticaServerError::TimeExpired).error_code, 3);
    assert_eq!(create_response(RusticaServerError::BadCertOptions).error_code, 4);
    assert_eq!(create_response(RusticaServerError::NotAuthorized).error_code, 5);
    assert_eq!(create_response(RusticaServerError::Unknown).error_code, 6);
    assert!(create_response(RusticaServerError::BadRequest)
        .certificate
        .is_empty());
    assert_eq!(
        create_response(RusticaServerError::TimeExpired).error,
        b"TimeExpired".to_vec()
    );
    assert_eq!(
        create_response(RusticaServerError::NotAuthorized).error,
        b"NotAuthorized".to_vec()
    );
}

#[test]
fn pre_authorize_rejects_bad_windows_and_types() {
    let ca = ssh_key("ca");
    let registry = registry_with_user_key(&ca);
    let fp = b"SHA256:fp".to_vec();
    let ids = vec![b"alice@example".to_vec()];
    let ip = b"10.0.0.1:50000".to_vec();

    // Inverted window: strict comparison, equality is allowed.
    let err = certificate_pre_authorize(&registry, &request(1, 200, 100), &fp, &ids, &ip, 50)
        .unwrap_err();
    assert_eq!(err, RusticaServerError::BadCertOptions);

    // Already expired: now strictly past valid_before.
    let err = certificate_pre_authorize(&registry, &request(1, 100, 200), &fp, &ids, &ip, 201)
        .unwrap_err();
    assert_eq!(err, RusticaServerError::BadCertOptions);

    // Unknown certificate type.
    let err = certificate_pre_authorize(&registry, &request(3, 100, 200), &fp, &ids, &ip, 150)
        .unwrap_err();
    assert_eq!(err, RusticaServerError::BadCertOptions);

    // Host certificates need a host key, which this authority lacks.
    let err = certificate_pre_authorize(&registry, &request(2, 100, 200), &fp, &ids, &ip, 150)
        .unwrap_err();
    assert_eq!(err, RusticaServerError::NotAuthorized);

    // An unknown authority in key_id.
    let mut req = request(1, 100, 200);
    req.key_id = b"missing".to_vec();
    let err =
        certificate_pre_authorize(&registry, &req, &fp, &ids, &ip, 150).unwrap_err();
    assert_eq!(err, RusticaServerError::NotAuthorized);

    // Happy path: empty key_id selects the default authority.
    let (props, ca_fp) =
        certificate_pre_authorize(&registry, &request(1, 100, 200), &fp, &ids, &ip, 150).unwrap();
    assert_eq!(ca_fp, ca.pubkey.fingerprint().hash.into_bytes());
    assert_eq!(props.authority, b"default".to_vec());
    assert_eq!(props.cert_type, CertType::User);
    assert_eq!(props.fingerprint, fp);
}

fn sample_authorization(serial: u64) -> Authorization {
    Authorization {
        serial,
        valid_before: 1700003600,
        valid_after: 1700000000,
        principals: vec![b"alice".to_vec()],
        hosts: None,
        extensions: vec![(b"permit-pty".to_vec(), Vec::new())],
        force_command: Some(b"/bin/true".to_vec()),
        force_source_ip: true,
        authority: b"default".to_vec(),
    }
}

#[test]
fn compose_builds_the_exact_template() {
    let key = ssh_key("subject");
    let ca = ssh_key("ca");
    let pubkey = key.pubkey.to_string().into_bytes();
    let fp = key.pubkey.fingerprint().hash.into_bytes();
    let ca_fp = ca.pubkey.fingerprint().hash.into_bytes();
    let authorization = sample_authorization(42);
    let template = compose_certificate(
        &authorization,
        &pubkey,
        &fp,
        &ca_fp,
        &b"10.0.0.9".to_vec(),
        CertType::User,
    );
    assert_eq!(template.signer_fp, ca_fp);
    let mut expected_key_id = b"Rustica-JITC-for-".to_vec();
    expected_key_id.extend_from_slice(&fp);
    assert_eq!(template.key_id, expected_key_id);
    assert_eq!(template.serial, 42);
    assert_eq!(template.principals, vec![b"alice".to_vec()]);
    assert_eq!(
        template.critical_options,
        vec![
            (b"force-command".to_vec(), b"/bin/true".to_vec()),
            (b"source-address".to_vec(), b"10.0.0.9".to_vec()),
        ]
    );
    assert_eq!(template.valid_after, 1700000000);
    assert_eq!(template.valid_before, 1700003600);
}

#[test]
fn finalize_accepts_a_faithful_signature_and_rejects_drift() {
    let ca = ssh_key("ca");
    let subject = ssh_key("subject");
    let pubkey = subject.pubkey.to_string().into_bytes();
    let fp = subject.pubkey.fingerprint().hash.clone().into_bytes();
    let ca_fp = ca.pubkey.fingerprint().hash.clone().into_bytes();
    let mut authorization = sample_authorization(42);
    authorization.force_command = None;
    authorization.force_source_ip = false;
    let template = compose_certificate(
        &authorization,
        &pubkey,
        &fp,
        &ca_fp,
        &b"10.0.0.9".to_vec(),
        CertType::User,
    );

    let mut extensions = std::collections::HashMap::new();
    extensions.insert(String::from("permit-pty"), String::new());
    // What a faithful signing backend produces from the template.
    let cert = sshcerts::Certificate::builder(
        &subject.pubkey,
        sshcerts::CertType::User,
        &ca.pubkey,
    )
    .unwrap()
    .serial(template.serial)
    .key_id(String::from_utf8(template.key_id.clone()).unwrap())
    .set_principals(&[String::from("alice")])
    .valid_after(template.valid_after)
    .valid_before(template.valid_before)
    .set_extensions(extensions.clone())
    .sign(&ca)
    .unwrap();
    let serialized = format!("{}", cert).into_bytes();

    let issued = certificate_finalize(serialized.clone(), &template).unwrap();
    assert_eq!(issued, serialized);

    // A certificate with a drifted serial is refused by the self check.
    let drifted = sshcerts::Certificate::builder(
        &subject.pubkey,
        sshcerts::CertType::User,
        &ca.pubkey,
    )
    .unwrap()
    .serial(template.serial + 1)
    .key_id(String::from_utf8(template.key_id.clone()).unwrap())
    .set_principals(&[String::from("alice")])
    .valid_after(template.valid_after)
    .valid_before(template.valid_before)
    .set_extensions(extensions.clone())
    .sign(&ca)
    .unwrap();
    let err = certificate_finalize(format!("{}", drifted).into_bytes(), &template).unwrap_err();
    assert_eq!(err, RusticaServerError::BadCertOptions);

    // A certificate for a different subject key is refused.
    let other = ssh_key("other");
    let wrong_key = sshcerts::Certificate::builder(
        &other.pubkey,
        sshcerts::CertType::User,
        &ca.pubkey,
    )
    .unwrap()
    .serial(template.serial)
    .key_id(String::from_utf8(template.key_id.clone()).unwrap())
    .set_principals(&[String::from("alice")])
    .valid_after(template.valid_after)
    .valid_before(template.valid_before)
    .set_extensions(extensions.clone())
    .sign(&ca)
    .unwrap();
    let err = certificate_finalize(format!("{}", wrong_key).into_bytes(), &template).unwrap_err();
    assert_eq!(err, RusticaServerError::BadCertOptions);

    // A certificate signed by a different CA is refused: the signing key
    // must be the selected authority's.
    let rogue = ssh_key("rogue-ca");
    let wrong_signer = sshcerts::Certificate::builder(
        &subject.pubkey,
        sshcerts::CertType::User,
        &rogue.pubkey,
    )
    .unwrap()
    .serial(template.serial)
    .key_id(String::from_utf8(template.key_id.clone()).unwrap())
    .set_principals(&[String::from("alice")])
    .valid_after(template.valid_after)
    .valid_before(template.valid_before)
    .set_extensions(extensions.clone())
    .sign(&rogue)
    .unwrap();
    let err =
        certificate_finalize(format!("{}", wrong_signer).into_bytes(), &template).unwrap_err();
    assert_eq!(err, RusticaServerError::BadCertOptions);

    // A certificate missing the dictated extensions is refused.
    let bare = sshcerts::Certificate::builder(
        &subject.pubkey,
        sshcerts::CertType::User,
        &ca.pubkey,
    )
    .unwrap()
    .serial(template.serial)
    .key_id(String::from_utf8(template.key_id.clone()).unwrap())
    .set_principals(&[String::from("alice")])
    .valid_after(template.valid_after)
    .valid_before(template.valid_before)
    .sign(&ca)
    .unwrap();
    let err = certificate_finalize(format!("{}", bare).into_bytes(), &template).unwrap_err();
    assert_eq!(err, RusticaServerError::BadCertOptions);

    // Unparsable bytes are refused.
    let err = certificate_finalize(b"junk".to_vec(), &template).unwrap_err();
    assert_eq!(err, RusticaServerError::BadCertOptions);
}
