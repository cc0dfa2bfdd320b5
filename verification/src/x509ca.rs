//! X.509 certificate-authority operations through `rcgen`.
//!
//! An `rcgen::Certificate` is a CA handle: an opaque value carrying the
//! parameters and key pair of a configured certificate authority. The
//! library stores such handles in the signing registry and hands them to
//! the wrappers below; everything the issuance logic decides is passed in
//! as plain values. What the signed result contains is checked afterwards
//! by parsing it back, not assumed here.

use vstd::prelude::*;
use std::time::{Duration, UNIX_EPOCH};
use crate::bytesutil::spec_is_utf8;
use crate::mtls::spec_parse_x509_pem;

verus! {

/// The last UNIX second whose date an X.509 GeneralizedTime can carry
/// (the end of year 9999); the reissuance claims hold below this bound.
pub const MAX_X509_ENCODABLE_TIME: u64 = 253402300799;

/// An OID the DER writer can encode: at least two arcs, the first below
/// three, and a second arc below forty unless the first is two. Anything
/// else aborts serialization.
pub open spec fn spec_valid_der_oid(oid: Seq<u64>) -> bool {
    &&& oid.len() >= 2
    &&& oid[0] < 3
    &&& (oid[0] >= 2 || oid[1] < 40)
    &&& oid[1] < 18446744073709551535
}

#[verifier::external_type_specification]
#[verifier::external_body]
pub struct ExRcgenCertificate(rcgen::Certificate);

#[verifier::external_type_specification]
#[verifier::external_body]
pub struct ExRcgenCsr(rcgen::CertificateSigningRequest);

/// A custom extension to place in an issued X.509 certificate: an OID and
/// its DER content.
#[derive(Debug)]
pub struct X509Extension {
    pub oid: Vec<u64>,
    pub content: Vec<u8>,
}

/// Everything the attested issuance path overrides in a caller's CSR,
/// decided by verified code and applied by the `rcgen` wrappers.
#[derive(Debug)]
pub struct X509IssueParams {
    /// The subject CommonName and the sole rfc822 subject alternative name.
    pub common_name: Vec<u8>,
    /// The serial number, as little-endian bytes of the authorized serial.
    pub serial_le: Vec<u8>,
    /// The subject OrganizationName.
    pub organization: Vec<u8>,
    /// Validity window, UNIX seconds.
    pub not_before: u64,
    pub not_after: u64,
    /// Custom extensions from the authorization result.
    pub extensions: Vec<X509Extension>,
}

/// Relies on `rcgen::Certificate::serialize_pem`: the PEM form of a CA
/// certificate, which is never empty. Nothing further is promised of the
/// text.
#[verifier::external_body]
pub(crate) fn serialize_ca_pem(ca: &rcgen::Certificate) -> (r: Option<Vec<u8>>)
    ensures
        r matches Some(p) ==> p@.len() > 0,
{
    let pem = ca.serialize_pem().ok()?;
    if pem.is_empty() {
        return None;
    }
    Some(pem.into_bytes())
}

/// Relies on `rcgen::Certificate::from_params`,
/// `serialize_pem_with_signer` and `serialize_private_key_pem`: mints a
/// fresh client certificate without subject alternative names, with the
/// first identity as the sole subject CommonName and the given validity,
/// signed by `ca`. The validity bounds must fit what a certificate date
/// can encode: past that the underlying time conversion aborts. The key
/// pair is random; of the PEM it is promised that it parses back to a
/// certificate carrying that CommonName (when the first identity is
/// UTF-8, so the string conversion is lossless) and exactly the given
/// validity window.
#[verifier::external_body]
pub(crate) fn mint_client_certificate(
    identities: &Vec<Vec<u8>>,
    not_before: u64,
    not_after: u64,
    ca: &rcgen::Certificate,
) -> (r: Option<(Vec<u8>, Vec<u8>)>)
    requires
        not_before <= MAX_X509_ENCODABLE_TIME,
        not_after <= MAX_X509_ENCODABLE_TIME,
    ensures
        r matches Some(p) ==> p.0@.len() > 0 && p.1@.len() > 0,
        r matches Some(p) ==> spec_parse_x509_pem(p.0@) is Some,
        r matches Some(p) ==> ((identities@.len() > 0 && spec_is_utf8(identities@[0]@)) ==> ({
            let v = spec_parse_x509_pem(p.0@).unwrap();
            &&& v.identities == seq![identities@[0]@]
            &&& v.not_before == not_before as i64
            &&& v.not_after == not_after as i64
        })),
{
    let cn = identities.get(0).map(|i| String::from_utf8_lossy(i).into_owned()).unwrap_or_default();
    let mut params = rcgen::CertificateParams::new(Vec::<String>::new());
    params.not_before = (UNIX_EPOCH + Duration::from_secs(not_before)).into();
    params.not_after = (UNIX_EPOCH + Duration::from_secs(not_after)).into();
    params.distinguished_name.push(rcgen::DnType::CommonName, cn);
    let cert = rcgen::Certificate::from_params(params).ok()?;
    let pem = cert.serialize_pem_with_signer(ca).ok()?.into_bytes();
    let key = cert.serialize_private_key_pem().into_bytes();
    Some((pem, key))
}

/// Relies on `rcgen::CertificateSigningRequest::from_der`: parses a DER
/// CSR, verifying its self-signature.
#[verifier::external_body]
pub(crate) fn parse_csr(der: &Vec<u8>) -> (r: Option<rcgen::CertificateSigningRequest>) {
    rcgen::CertificateSigningRequest::from_der(der).ok()
}

/// Relies on the public `params` field of
/// `rcgen::CertificateSigningRequest`: replaces the subject of the
/// caller's CSR — alternative names, serial, custom extensions and
/// distinguished name — with the values issuance decided. Returns false
/// when a name is not UTF-8. Every extension OID must be encodable:
/// serializing a certificate carrying an invalid one aborts.
#[verifier::external_body]
pub(crate) fn apply_issue_subject(csr: &mut rcgen::CertificateSigningRequest, p: &X509IssueParams) -> (r:
    bool)
    requires
        forall|i: int|
            0 <= i < p.extensions@.len() ==> spec_valid_der_oid(
                (#[trigger] p.extensions@[i]).oid@,
            ),
{
    let names = (String::from_utf8(p.common_name.clone()), String::from_utf8(p.organization.clone()));
    let (Ok(cn), Ok(org)) = names else { return false };
    csr.params.subject_alt_names = vec![rcgen::SanType::Rfc822Name(cn.clone())];
    csr.params.serial_number = Some(rcgen::SerialNumber::from_slice(&p.serial_le));
    let exts = p.extensions.iter().map(|e| rcgen::CustomExtension::from_oid_content(&e.oid, e.content.clone()));
    csr.params.custom_extensions = exts.collect();
    csr.params.distinguished_name = rcgen::DistinguishedName::new();
    csr.params.distinguished_name.push(rcgen::DnType::OrganizationName, org);
    csr.params.distinguished_name.push(rcgen::DnType::CommonName, cn);
    true
}

/// Relies on the public `params` field of
/// `rcgen::CertificateSigningRequest`: clears the CA flag, key usages,
/// name constraints and authority key identifier, and sets the validity
/// window issuance decided. The validity bounds must fit what a
/// certificate date can encode: past that the underlying time conversion
/// aborts.
#[verifier::external_body]
pub(crate) fn apply_issue_constraints(csr: &mut rcgen::CertificateSigningRequest, p: &X509IssueParams)
    requires
        p.not_before <= MAX_X509_ENCODABLE_TIME,
        p.not_after <= MAX_X509_ENCODABLE_TIME,
{
    csr.params.is_ca = rcgen::IsCa::NoCa;
    csr.params.key_usages = vec![rcgen::KeyUsagePurpose::DigitalSignature];
    csr.params.extended_key_usages = vec![];
    csr.params.name_constraints = None;
    csr.params.use_authority_key_identifier_extension = false;
    csr.params.not_before = (UNIX_EPOCH + Duration::from_secs(p.not_before)).into();
    csr.params.not_after = (UNIX_EPOCH + Duration::from_secs(p.not_after)).into();
}

/// Relies on `rcgen::CertificateSigningRequest::serialize_der_with_signer`:
/// the DER certificate for the CSR, signed by `ca`. Its freedom from
/// aborts rests on the values the apply steps installed: encodable OIDs
/// and dates, which their preconditions guarantee.
#[verifier::external_body]
pub(crate) fn sign_csr(csr: &rcgen::CertificateSigningRequest, ca: &rcgen::Certificate) -> (r: Option<
    Vec<u8>,
>) {
    csr.serialize_der_with_signer(ca).ok()
}

} // verus!
