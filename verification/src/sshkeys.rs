//! SSH keys and certificates, as the protocol reads them.
//!
//! Parsing, fingerprinting and certificate construction are done by the
//! `sshcerts` crate. The library reads certificates through a plain-value
//! view: the fields a parsed certificate exposes are a function of the
//! serialized bytes alone, named by `spec_parse_ssh_cert`.

use vstd::prelude::*;

verus! {

#[verifier::external_type_specification]
#[verifier::external_body]
pub struct ExSshPrivateKey(sshcerts::PrivateKey);

/// The fields of a parsed SSH certificate that the protocol reads.
pub ghost struct SshCertView {
    /// The key id field, here the carrier of the challenge HMAC tag.
    pub key_id: Seq<u8>,
    /// SHA-256 fingerprint of the subject public key.
    pub key_fp: Seq<u8>,
    /// SHA-256 fingerprint of the public key that signed the certificate.
    pub sig_key_fp: Seq<u8>,
    /// Certificate type wire value: 1 for user, 2 for host.
    pub cert_type: u32,
    /// Serial number.
    pub serial: u64,
    /// Start of the validity window, UNIX seconds.
    pub valid_after: u64,
    /// End of the validity window, UNIX seconds.
    pub valid_before: u64,
    /// The principals, in certificate order.
    pub principals: Seq<Seq<u8>>,
    /// The critical options, an unordered set of (name, value) pairs.
    pub critical_options: Set<(Seq<u8>, Seq<u8>)>,
    /// The extensions, an unordered set of (name, value) pairs.
    pub extensions: Set<(Seq<u8>, Seq<u8>)>,
}

/// What `sshcerts::Certificate::from_string` makes of a serialized
/// certificate: `None` when parsing or its internal signature check fails,
/// otherwise the fields above. A function of the bytes alone.
pub uninterp spec fn spec_parse_ssh_cert(s: Seq<u8>) -> Option<SshCertView>;

/// What `sshcerts::PublicKey::from_string` followed by `fingerprint()`
/// makes of a public key string: `None` when the string does not parse,
/// otherwise the SHA-256 fingerprint hash. A function of the string alone.
pub uninterp spec fn spec_ssh_pubkey_parse(s: Seq<u8>) -> Option<Seq<u8>>;

/// A parsed SSH certificate, reduced to the plain fields the protocol
/// reads.
#[derive(Debug)]
pub struct SshCertInfo {
    pub key_id: Vec<u8>,
    pub key_fp: Vec<u8>,
    pub sig_key_fp: Vec<u8>,
    pub cert_type: u32,
    pub serial: u64,
    pub valid_after: u64,
    pub valid_before: u64,
    pub principals: Vec<Vec<u8>>,
    /// Critical options; the order carries no meaning.
    pub critical_options: Vec<(Vec<u8>, Vec<u8>)>,
    /// Extensions; the order carries no meaning.
    pub extensions: Vec<(Vec<u8>, Vec<u8>)>,
}

impl SshCertInfo {
    /// The mathematical view of this parsed certificate.
    pub open spec fn view(&self) -> SshCertView {
        SshCertView {
            key_id: self.key_id@,
            key_fp: self.key_fp@,
            sig_key_fp: self.sig_key_fp@,
            cert_type: self.cert_type,
            serial: self.serial,
            valid_after: self.valid_after,
            valid_before: self.valid_before,
            principals: self.principals@.map_values(|p: Vec<u8>| p@),
            critical_options: self.critical_options@.map_values(
                |p: (Vec<u8>, Vec<u8>)| (p.0@, p.1@),
            ).to_set(),
            extensions: self.extensions@.map_values(|p: (Vec<u8>, Vec<u8>)| (p.0@, p.1@)).to_set(),
        }
    }
}

/// Relies on `sshcerts::Certificate::from_string`: parses the serialized
/// certificate, verifying its inner signature, and exposes its fields.
#[verifier::external_body]
pub(crate) fn parse_ssh_cert(s: &Vec<u8>) -> (r: Option<SshCertInfo>)
    ensures
        r matches Some(c) ==> spec_parse_ssh_cert(s@) == Some(c.view()),
        r is None ==> spec_parse_ssh_cert(s@) is None,
{
    let c = sshcerts::Certificate::from_string(core::str::from_utf8(s).ok()?).ok()?;
    let pairs = |m: std::collections::HashMap<String, String>| {
        m.into_iter().map(|(k, v)| (k.into_bytes(), v.into_bytes())).collect()
    };
    Some(SshCertInfo {
        key_id: c.key_id.into_bytes(),
        key_fp: c.key.fingerprint().hash.into_bytes(),
        sig_key_fp: c.signature_key.fingerprint().hash.into_bytes(),
        cert_type: c.cert_type as u32,
        serial: c.serial, valid_after: c.valid_after, valid_before: c.valid_before,
        principals: c.principals.into_iter().map(|p| p.into_bytes()).collect(),
        critical_options: pairs(c.critical_options), extensions: pairs(c.extensions),
    })
}

/// Relies on `sshcerts::PublicKey::from_string` and `fingerprint()`: the
/// SHA-256 fingerprint of a public key string, `None` when it fails to
/// parse.
#[verifier::external_body]
pub(crate) fn ssh_pubkey_fingerprint(s: &Vec<u8>) -> (r: Option<Vec<u8>>)
    ensures
        r matches Some(fp) ==> spec_ssh_pubkey_parse(s@) == Some(fp@),
        r is None ==> spec_ssh_pubkey_parse(s@) is None,
{
    let text = core::str::from_utf8(s).ok()?;
    let key = sshcerts::PublicKey::from_string(text).ok()?;
    Some(key.fingerprint().hash.into_bytes())
}

/// The process-wide challenge signing key: an Ed25519 key minted at
/// startup, kept with the fingerprint of its public key. The fields are
/// private so that every value originates in `generate_challenge_key`,
/// where the stored fingerprint is computed from the stored key.
pub struct ChallengeKey {
    key: sshcerts::PrivateKey,
    pub_fp: Vec<u8>,
}

impl ChallengeKey {
    /// The SHA-256 fingerprint of the challenge public key.
    pub fn pubkey_fingerprint(&self) -> (r: &Vec<u8>)
        ensures
            r@ == self.spec_pubkey_fingerprint(),
    {
        &self.pub_fp
    }

    /// The fingerprint field, for contracts.
    pub closed spec fn spec_pubkey_fingerprint(&self) -> Seq<u8> {
        self.pub_fp@
    }
}

/// Relies on `sshcerts::PrivateKey::new`: generates a fresh Ed25519 key.
/// The fingerprint stored beside it is computed from that key's public
/// half. Nothing is promised of the random value.
#[verifier::external_body]
pub(crate) fn generate_challenge_key() -> (r: Option<ChallengeKey>)
    ensures
        r matches Some(k) ==> k.spec_pubkey_fingerprint().len() > 0,
{
    let key = sshcerts::PrivateKey::new(sshcerts::ssh::KeyTypeKind::Ed25519, "RusticaChallengeKey")
        .ok()?;
    let fp = key.pubkey.fingerprint().hash.clone().into_bytes();
    if fp.is_empty() {
        return None;
    }
    Some(ChallengeKey { key, pub_fp: fp })
}

/// Relies on `sshcerts::Certificate::builder` and `sign`, and on the
/// `Display`/`from_string` round trip: the returned serialization parses
/// back to a host certificate whose subject key is the given public key,
/// whose signing key is the challenge key, with the given key id, serial
/// and validity window, no principals, no critical options and no
/// extensions.
#[verifier::external_body]
pub(crate) fn mint_challenge_cert(
    key: &ChallengeKey,
    pubkey: &Vec<u8>,
    key_id: &Vec<u8>,
    serial: u64,
    valid_after: u64,
    valid_before: u64,
) -> (r: Option<Vec<u8>>)
    ensures
        r is Some ==> spec_ssh_pubkey_parse(pubkey@) is Some,
        r matches Some(c) ==> spec_parse_ssh_cert(c@) == Some(
            SshCertView {
                key_id: key_id@,
                key_fp: spec_ssh_pubkey_parse(pubkey@).unwrap(),
                sig_key_fp: key.spec_pubkey_fingerprint(),
                cert_type: 2u32,
                serial: serial,
                valid_after: valid_after,
                valid_before: valid_before,
                principals: Seq::empty(),
                critical_options: Set::empty(),
                extensions: Set::empty(),
            },
        ),
{
    let pk_text = core::str::from_utf8(pubkey).ok()?;
    let pk = sshcerts::PublicKey::from_string(pk_text).ok()?;
    let kid = core::str::from_utf8(key_id).ok()?;
    let cert = sshcerts::Certificate::builder(&pk, sshcerts::CertType::Host, &key.key.pubkey)
        .ok()?
        .serial(serial)
        .key_id(kid)
        .valid_after(valid_after)
        .valid_before(valid_before)
        .sign(&key.key)
        .ok()?;
    Some(format!("{}", cert).into_bytes())
}

} // verus!
