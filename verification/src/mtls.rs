//! Reading X.509 certificates: the caller's mTLS leaf and the results of
//! the attested issuance path.
//!
//! Certificates are parsed by `x509-parser`; the library reads plain
//! fields from them: the Subject CommonName values in order (the caller's
//! identities), the validity timestamps, the subjectPublicKeyInfo bytes,
//! the raw serial octets, the key-usage flags, the CA flag and the subject
//! alternative names. All of them are a function of the DER bytes alone.

use vstd::prelude::*;
use crate::errors::RusticaServerError;

verus! {

/// What the library reads from a parsed X.509 certificate.
pub ghost struct X509CertView {
    /// Subject CommonName attribute values, in certificate order.
    pub identities: Seq<Seq<u8>>,
    /// The notBefore validity bound as a UNIX timestamp.
    pub not_before: i64,
    /// The notAfter validity bound as a UNIX timestamp.
    pub not_after: i64,
    /// The raw DER bytes of the subjectPublicKeyInfo.
    pub spki: Seq<u8>,
    /// The raw content octets of the serial INTEGER.
    pub serial_der: Seq<u8>,
    /// The key-usage flags, least-significant bit first (bit 0 is
    /// digitalSignature); `None` when the extension is absent or
    /// malformed.
    pub key_usage: Option<u16>,
    /// The basicConstraints CA flag; `None` when the extension is absent
    /// or malformed.
    pub basic_constraints_ca: Option<bool>,
    /// The subject alternative names as (kind, value) pairs — kind 1 is an
    /// rfc822 name, kind 2 a DNS name, kind 0 any other form with an empty
    /// value; `None` when the extension is absent or malformed.
    pub sans: Option<Seq<(u8, Seq<u8>)>>,
    /// All extensions in certificate order, as (OID arcs, raw content)
    /// pairs; an OID with an arc too wide for the machine reads as empty.
    pub extensions: Seq<(Seq<u64>, Seq<u8>)>,
}

/// What `x509_parser::parse_x509_certificate` makes of DER bytes: `None`
/// when parsing fails or a CommonName is not a UTF-8 string, otherwise the
/// fields above. A function of the bytes alone.
pub uninterp spec fn spec_parse_x509_cert(der: Seq<u8>) -> Option<X509CertView>;

/// What `x509_parser::pem::parse_x509_pem` followed by certificate
/// parsing makes of a PEM document: `None` when it is not a PEM-armored
/// certificate, otherwise the same view. A function of the bytes alone.
pub uninterp spec fn spec_parse_x509_pem(p: Seq<u8>) -> Option<X509CertView>;

/// A parsed certificate, reduced to the plain fields the library reads;
/// the subject alternative names are read separately.
pub struct X509CertInfo {
    pub identities: Vec<Vec<u8>>,
    pub not_before: i64,
    pub not_after: i64,
    pub spki: Vec<u8>,
    pub serial_der: Vec<u8>,
    pub key_usage: Option<u16>,
    pub basic_constraints_ca: Option<bool>,
}

/// Relies on `x509_parser::parse_x509_certificate`, `iter_common_name`,
/// the `validity()` timestamps, `tbs_certificate.subject_pki.raw`,
/// `raw_serial`, `key_usage` and `basic_constraints`: parses the DER
/// certificate and exposes the named fields; fails when the DER does not
/// parse or a CommonName is not UTF-8. An absent or malformed key-usage or
/// basic-constraints extension reads as absent.
#[verifier::external_body]
pub(crate) fn parse_x509_cert(der: &Vec<u8>) -> (r: Option<X509CertInfo>)
    ensures
        (r is Some) <==> (spec_parse_x509_cert(der@) is Some),
        r matches Some(c) ==> (spec_parse_x509_cert(der@) matches Some(v) && {
            &&& v.identities == c.identities@.map_values(|i: Vec<u8>| i@)
            &&& v.not_before == c.not_before
            &&& v.not_after == c.not_after
            &&& v.spki == c.spki@
            &&& v.serial_der == c.serial_der@
            &&& v.key_usage == c.key_usage
            &&& v.basic_constraints_ca == c.basic_constraints_ca
        }),
{
    let (_, c) = x509_parser::parse_x509_certificate(der).ok()?;
    let t = &c.tbs_certificate;
    let mut identities: Vec<Vec<u8>> = Vec::new();
    for cn in t.subject.iter_common_name() {
        identities.push(cn.as_str().ok()?.as_bytes().to_vec());
    }
    Some(X509CertInfo {
        identities,
        not_before: c.validity().not_before.timestamp(),
        not_after: c.validity().not_after.timestamp(),
        spki: t.subject_pki.raw.to_vec(),
        serial_der: t.raw_serial().to_vec(),
        key_usage: c.key_usage().ok().flatten().map(|e| e.value.flags),
        basic_constraints_ca: c.basic_constraints().ok().flatten().map(|e| e.value.ca),
    })
}

/// Relies on `x509_parser::parse_x509_certificate` and
/// `subject_alternative_name`: the subject alternative names of the
/// certificate as (kind, value) pairs — 1 for rfc822 names, 2 for DNS
/// names, 0 for any other form. The outer `None` is a failed parse; the
/// inner `None` an absent or malformed extension.
#[verifier::external_body]
pub(crate) fn parse_x509_sans(der: &Vec<u8>) -> (r: Option<Option<Vec<(u8, Vec<u8>)>>>)
    ensures
        spec_parse_x509_cert(der@) is Some ==> r is Some,
        r matches Some(s) ==> (spec_parse_x509_cert(der@) matches Some(v) ==> (match s {
            Some(list) => v.sans == Some(
                list@.map_values(|p: (u8, Vec<u8>)| (p.0, p.1@)),
            ),
            None => v.sans is None,
        })),
{
    let (_, c) = x509_parser::parse_x509_certificate(der).ok()?;
    let gn = |g: &x509_parser::extensions::GeneralName| match g {
        x509_parser::extensions::GeneralName::RFC822Name(s) => (1u8, s.as_bytes().to_vec()),
        x509_parser::extensions::GeneralName::DNSName(s) => (2u8, s.as_bytes().to_vec()),
        _ => (0u8, Vec::new()),
    };
    Some(
        c.subject_alternative_name().ok().flatten().map(
            |e| e.value.general_names.iter().map(gn).collect(),
        ),
    )
}

/// Relies on `x509_parser::parse_x509_certificate` and
/// `TbsCertificate::extensions`, with `Oid::iter` for the arcs: every
/// extension of the certificate in order, as (OID arcs, raw content)
/// pairs. The outer `None` is a failed parse.
#[verifier::external_body]
pub(crate) fn parse_x509_extensions(der: &Vec<u8>) -> (r: Option<Vec<(Vec<u64>, Vec<u8>)>>)
    ensures
        spec_parse_x509_cert(der@) is Some ==> r is Some,
        r matches Some(list) ==> (spec_parse_x509_cert(der@) matches Some(v) ==> v.extensions
            == list@.map_values(|p: (Vec<u64>, Vec<u8>)| (p.0@, p.1@))),
{
    let (_, c) = x509_parser::parse_x509_certificate(der).ok()?;
    let conv = |e: &x509_parser::extensions::X509Extension| {
        let oid: Vec<u64> = e.oid.iter().map(|arcs| arcs.collect()).unwrap_or_default();
        (oid, e.value.to_vec())
    };
    Some(c.tbs_certificate.extensions().iter().map(conv).collect())
}

/// The identities and expiry the server keeps of the caller's mTLS leaf.
#[derive(Debug)]
pub struct MtlsCertificateInfo {
    /// Subject CommonName values, in certificate order.
    pub identities: Vec<Vec<u8>>,
    /// notAfter of the leaf, UNIX seconds.
    pub expiry_timestamp: i64,
}

/// Extracts the identities (CommonNames) and expiry from a presented mTLS
/// certificate. Fails with `NotAuthorized` exactly when the certificate
/// does not parse or holds a non-UTF-8 CommonName.
pub fn extract_certificate_information(der: &Vec<u8>) -> (r: Result<
    MtlsCertificateInfo,
    RusticaServerError,
>)
    ensures
        r is Ok <==> spec_parse_x509_cert(der@) is Some,
        r matches Ok(info) ==> {
            &&& spec_parse_x509_cert(der@) matches Some(v)
            &&& info.identities@.map_values(|i: Vec<u8>| i@) == v.identities
            &&& info.expiry_timestamp == v.not_after
        },
        r matches Err(e) ==> e == RusticaServerError::NotAuthorized,
{
    match parse_x509_cert(der) {
        Some(c) => Ok(
            MtlsCertificateInfo { identities: c.identities, expiry_timestamp: c.not_after },
        ),
        None => Err(RusticaServerError::NotAuthorized),
    }
}

} // verus!
