use rustica::errors::SigningError;
use rustica::signing::{
    convert_to_signing_mechanism, Authority, CertType, SignerCapabilities, SshKeyEntry,
};

fn key_entry(tag: &str) -> SshKeyEntry {
    let key = sshcerts::PrivateKey::new(sshcerts::ssh::KeyTypeKind::Ed25519, tag).unwrap();
    SshKeyEntry {
        pubkey: key.pubkey.to_string().into_bytes(),
        fingerprint: key.pubkey.fingerprint().hash.into_bytes(),
    }
}

fn authority(name: &str, user: Option<SshKeyEntry>, host: Option<SshKeyEntry>) -> Authority {
    Authority {
        name: name.as_bytes().to_vec(),
        capabilities: SignerCapabilities {
            user_key: user,
            host_key: host,
            attested_x509_authority: None,
            client_certificate_authority: None,
        },
    }
}

#[test]
fn distinct_keys_start_successfully() {
    let authorities = vec![
        authority("alpha", Some(key_entry("a-user")), Some(key_entry("a-host"))),
        authority("beta", Some(key_entry("b-user")), None),
    ];
    let registry = convert_to_signing_mechanism(b"alpha".to_vec(), authorities).unwrap();
    assert_eq!(registry.default_authority, b"alpha".to_vec());
    assert_eq!(
        registry.get_authorities(),
        vec![b"alpha".to_vec(), b"beta".to_vec()]
    );
}

#[test]
fn shared_key_across_authorities_fails_startup() {
    let shared = key_entry("shared");
    let shared_copy = SshKeyEntry {
        pubkey: shared.pubkey.clone(),
        fingerprint: shared.fingerprint.clone(),
    };
    let authorities = vec![
        authority("alpha", Some(shared), None),
        authority("beta", Some(shared_copy), None),
    ];
    let err = match convert_to_signing_mechanism(b"alpha".to_vec(), authorities) {
        Err(e) => e,
        Ok(_) => panic!("a shared key must fail startup"),
    };
    match err {
        SigningError::DuplicatedKey(a, b) => {
            // Both authority names are reported.
            assert_eq!(a, b"beta".to_vec());
            assert_eq!(b, b"alpha".to_vec());
        }
        other => panic!("expected DuplicatedKey, got {:?}", other),
    }
}

#[test]
fn identical_user_and_host_key_fails_startup() {
    let shared = key_entry("shared");
    let shared_copy = SshKeyEntry {
        pubkey: shared.pubkey.clone(),
        fingerprint: shared.fingerprint.clone(),
    };
    let authorities = vec![authority("alpha", Some(shared), Some(shared_copy))];
    let err = match convert_to_signing_mechanism(b"alpha".to_vec(), authorities) {
        Err(e) => e,
        Ok(_) => panic!("an identical user and host key must fail startup"),
    };
    assert_eq!(
        err,
        SigningError::IdenticalUserAndHostKey(b"alpha".to_vec())
    );
}

#[test]
fn signer_public_key_lookup() {
    let user = key_entry("u");
    let user_fp = user.fingerprint.clone();
    let authorities = vec![authority("alpha", Some(user), None)];
    let registry = convert_to_signing_mechanism(b"alpha".to_vec(), authorities).unwrap();

    let found = registry
        .get_signer_public_key(&b"alpha".to_vec(), CertType::User)
        .unwrap();
    assert_eq!(found.fingerprint, user_fp);

    let missing_role = registry
        .get_signer_public_key(&b"alpha".to_vec(), CertType::Host)
        .unwrap_err();
    assert_eq!(missing_role, SigningError::SignerDoesNotHaveSSHKeys);

    let unknown = registry
        .get_signer_public_key(&b"nope".to_vec(), CertType::User)
        .unwrap_err();
    assert_eq!(unknown, SigningError::UnknownAuthority(b"nope".to_vec()));
}

#[test]
fn certificate_authority_lookup() {
    let mut params = rcgen::CertificateParams::new(Vec::<String>::new());
    params
        .distinguished_name
        .push(rcgen::DnType::CommonName, "Test CA");
    params.is_ca = rcgen::IsCa::Ca(rcgen::BasicConstraints::Unconstrained);
    let ca = rcgen::Certificate::from_params(params).unwrap();

    let authorities = vec![Authority {
        name: b"alpha".to_vec(),
        capabilities: SignerCapabilities {
            user_key: Some(key_entry("u")),
            host_key: None,
            attested_x509_authority: None,
            client_certificate_authority: Some(ca),
        },
    }];
    let registry = convert_to_signing_mechanism(b"alpha".to_vec(), authorities).unwrap();
    assert!(registry
        .get_client_certificate_authority(&b"alpha".to_vec())
        .unwrap()
        .is_some());
    assert!(registry
        .get_attested_x509_certificate_authority(&b"alpha".to_vec())
        .unwrap()
        .is_none());
    assert!(registry
        .get_client_certificate_authority(&b"nope".to_vec())
        .is_err());
}
