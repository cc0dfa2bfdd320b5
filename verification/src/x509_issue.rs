//! The attested X.509 issuance path.
//!
//! The caller's CSR is parsed, every security-relevant field is overwritten
//! with what the authorization backend granted, and the CSR is signed by
//! the authority's attested-X.509 CA. Because the CSR library does not
//! expose the public key before signing, the signed certificate is parsed
//! back and accepted only when its subjectPublicKeyInfo equals the
//! attestation leaf's.

use vstd::prelude::*;
use crate::bytesutil::{clone_bytes, push_all, spec_ascii_bytes, str_to_bytes};
use crate::errors::RusticaServerError;
use crate::mtls::{parse_x509_cert, parse_x509_extensions, parse_x509_sans, spec_parse_x509_cert};
use crate::x509ca::{X509Extension, X509IssueParams};

verus! {

/// What the authorization backend is asked about an attested X.509
/// request.
#[derive(Debug)]
pub struct X509AuthorizationRequestProperties {
    pub authority: Vec<u8>,
    pub mtls_identities: Vec<Vec<u8>>,
    pub requester_ip: Vec<u8>,
    pub attestation: Vec<u8>,
    pub attestation_intermediate: Vec<u8>,
    /// Fingerprint of the attested key the verifier yielded.
    pub key_fingerprint: Vec<u8>,
}

/// What the authorization backend granted for an attested X.509 request.
#[derive(Debug)]
pub struct X509Authorization {
    pub authority: Vec<u8>,
    pub common_name: Vec<u8>,
    pub serial: u64,
    pub valid_after: u64,
    pub valid_before: u64,
    pub extensions: Vec<(Vec<u64>, Vec<u8>)>,
}

/// The little-endian bytes of `x`, `k` bytes long.
pub open spec fn spec_le_bytes(x: nat, k: nat) -> Seq<u8>
    decreases k,
{
    if k == 0 {
        Seq::empty()
    } else {
        seq![(x % 256) as u8] + spec_le_bytes(x / 256, (k - 1) as nat)
    }
}

/// The eight little-endian bytes of a serial number.
pub fn u64_le_bytes(n: u64) -> (r: Vec<u8>)
    ensures
        r@ == spec_le_bytes(n as nat, 8),
{
    let mut r: Vec<u8> = Vec::new();
    let mut x: u64 = n;
    let mut k: usize = 0;
    while k < 8
        invariant
            0 <= k <= 8,
            spec_le_bytes(n as nat, 8) == r@ + spec_le_bytes(x as nat, (8 - k) as nat),
            r@.len() == k,
        decreases 8 - k,
    {
        let b: u8 = (x % 256) as u8;
        r.push(b);
        x = x / 256;
        k = k + 1;
    }
    assert(spec_le_bytes(x as nat, 0) =~= Seq::<u8>::empty());
    assert(r@ =~= r@ + Seq::<u8>::empty());
    r
}

/// Builds the issuance parameters from the authorization result: the
/// granted CommonName as subject and sole rfc822 name, the granted serial
/// in little-endian bytes, organization `Rustica-{authority}`, the granted
/// validity window and custom extensions.
pub fn compose_x509_issue_params(authorization: &X509Authorization) -> (r: X509IssueParams)
    ensures
        r.common_name@ == authorization.common_name@,
        r.serial_le@ == spec_le_bytes(authorization.serial as nat, 8),
        r.organization@ == spec_ascii_bytes("Rustica-"@) + authorization.authority@,
        r.not_before == authorization.valid_after,
        r.not_after == authorization.valid_before,
        r.extensions@.map_values(|e: X509Extension| (e.oid@, e.content@))
            == authorization.extensions@.map_values(|e: (Vec<u64>, Vec<u8>)| (e.0@, e.1@)),
{
    let mut organization = match str_to_bytes("Rustica-") {
        Some(k) => k,
        None => {
            proof {
                reveal_strlit("Rustica-");
                assert(false);
            }
            Vec::new()
        },
    };
    push_all(&mut organization, &authorization.authority);
    let ghost target = authorization.extensions@.map_values(
        |e: (Vec<u64>, Vec<u8>)| (e.0@, e.1@),
    );
    let mut extensions: Vec<X509Extension> = Vec::new();
    let mut i: usize = 0;
    while i < authorization.extensions.len()
        invariant
            0 <= i <= authorization.extensions@.len(),
            target == authorization.extensions@.map_values(|e: (Vec<u64>, Vec<u8>)| (e.0@, e.1@)),
            extensions@.map_values(|e: X509Extension| (e.oid@, e.content@)) == target.take(
                i as int,
            ),
        decreases authorization.extensions@.len() - i,
    {
        let oid = clone_u64s(&authorization.extensions[i].0);
        let content = clone_bytes(&authorization.extensions[i].1);
        let ghost iv = (oid@, content@);
        let ghost prev = extensions@;
        extensions.push(X509Extension { oid, content });
        proof {
            assert(prev.map_values(|e: X509Extension| (e.oid@, e.content@)).len() == prev.len());
            let emapped = extensions@.map_values(|e: X509Extension| (e.oid@, e.content@));
            assert forall|m: int| 0 <= m < i + 1 implies #[trigger] emapped[m] == target.take(
                i + 1,
            )[m] by {
                if m < i {
                    assert(prev.map_values(|e: X509Extension| (e.oid@, e.content@))[m]
                        == target.take(i as int)[m]);
                    assert(extensions@[m] == prev[m]);
                } else {
                    assert((extensions@[m].oid@, extensions@[m].content@) == iv);
                }
            }
            assert(emapped =~= target.take(i + 1));
        }
        i = i + 1;
    }
    proof {
        assert(target.take(authorization.extensions@.len() as int) =~= target);
    }
    X509IssueParams {
        common_name: clone_bytes(&authorization.common_name),
        serial_le: u64_le_bytes(authorization.serial),
        organization,
        not_before: authorization.valid_after,
        not_after: authorization.valid_before,
        extensions,
    }
}

/// Copies a vector of integers.
fn clone_u64s(v: &Vec<u64>) -> (r: Vec<u64>)
    ensures
        r@ == v@,
{
    let mut r: Vec<u64> = Vec::new();
    let mut i: usize = 0;
    while i < v.len()
        invariant
            0 <= i <= v@.len(),
            r@ == v@.take(i as int),
        decreases v@.len() - i,
    {
        let x = v[i];
        r.push(x);
        assert(r@ =~= v@.take(i + 1));
        i = i + 1;
    }
    assert(v@.take(v@.len() as int) =~= v@);
    r
}

/// `m` with its leading zero bytes removed.
pub open spec fn spec_strip_leading_zeros(m: Seq<u8>) -> Seq<u8>
    decreases m.len(),
{
    if m.len() == 0 || m[0] != 0 {
        m
    } else {
        spec_strip_leading_zeros(m.drop_first())
    }
}

/// The DER content octets of a non-negative INTEGER whose big-endian
/// magnitude is `m`: leading zeros stripped, a single zero byte for zero,
/// and a zero prefix when the leading bit is set.
pub open spec fn spec_der_unsigned_integer(m: Seq<u8>) -> Seq<u8> {
    let stripped = spec_strip_leading_zeros(m);
    if stripped.len() == 0 {
        seq![0u8]
    } else if stripped[0] >= 128 {
        seq![0u8] + stripped
    } else {
        stripped
    }
}

/// Computes the DER INTEGER content octets for a big-endian magnitude, as
/// the certificate serializer writes the serial number.
pub fn der_unsigned_integer(m: &Vec<u8>) -> (r: Vec<u8>)
    ensures
        r@ == spec_der_unsigned_integer(m@),
{
    let mut i: usize = 0;
    assert(m@.skip(0) =~= m@);
    while i < m.len() && m[i] == 0
        invariant
            0 <= i <= m@.len(),
            forall|k: int| 0 <= k < i ==> m@[k] == 0,
            spec_strip_leading_zeros(m@) == spec_strip_leading_zeros(m@.skip(i as int)),
        decreases m@.len() - i,
    {
        proof {
            assert(m@.skip(i as int).drop_first() =~= m@.skip(i + 1));
        }
        i = i + 1;
    }
    proof {
        if i < m.len() {
            assert(spec_strip_leading_zeros(m@.skip(i as int)) == m@.skip(i as int));
        } else {
            assert(m@.skip(i as int) =~= Seq::<u8>::empty());
        }
    }
    let mut r: Vec<u8> = Vec::new();
    if i == m.len() {
        r.push(0);
        assert(r@ =~= seq![0u8]);
        return r;
    }
    if m[i] >= 128 {
        r.push(0);
    }
    let ghost base = r@;
    let mut j: usize = i;
    while j < m.len()
        invariant
            i <= j <= m@.len(),
            i < m@.len(),
            r@ == base + m@.subrange(i as int, j as int),
        decreases m@.len() - j,
    {
        let b = m[j];
        r.push(b);
        assert(r@ =~= base + m@.subrange(i as int, j + 1));
        j = j + 1;
    }
    proof {
        assert(m@.subrange(i as int, m@.len() as int) =~= m@.skip(i as int));
        if m@[i as int] >= 128 {
            assert(r@ =~= seq![0u8] + spec_strip_leading_zeros(m@));
        } else {
            assert(r@ =~= spec_strip_leading_zeros(m@));
        }
    }
    r
}

/// The OID arcs of the standard extensions the issuance path sets itself:
/// subjectAltName, keyUsage and basicConstraints.
pub open spec fn spec_is_standard_ext_oid(oid: Seq<u64>) -> bool {
    ||| oid == seq![2u64, 5u64, 29u64, 17u64]
    ||| oid == seq![2u64, 5u64, 29u64, 15u64]
    ||| oid == seq![2u64, 5u64, 29u64, 19u64]
}

/// The extensions of a certificate that are not the standard ones the
/// issuance path sets itself, in certificate order.
pub open spec fn spec_custom_extensions(exts: Seq<(Seq<u64>, Seq<u8>)>) -> Seq<(Seq<u64>, Seq<u8>)>
    decreases exts.len(),
{
    if exts.len() == 0 {
        Seq::empty()
    } else {
        let rest = spec_custom_extensions(exts.drop_last());
        if spec_is_standard_ext_oid(exts.last().0) {
            rest
        } else {
            rest.push(exts.last())
        }
    }
}

/// Whether the DER writer can encode this OID.
fn valid_der_oid(oid: &Vec<u64>) -> (r: bool)
    ensures
        r <==> crate::x509ca::spec_valid_der_oid(oid@),
{
    oid.len() >= 2 && oid[0] < 3 && (oid[0] >= 2 || oid[1] < 40) && oid[1]
        < 18446744073709551535
}

/// Whether an OID names one of the standard extensions issuance sets.
fn is_standard_ext_oid(oid: &Vec<u64>) -> (r: bool)
    ensures
        r <==> spec_is_standard_ext_oid(oid@),
{
    if oid.len() != 4 {
        return false;
    }
    let last = oid[3];
    let head = oid[0] == 2 && oid[1] == 5 && oid[2] == 29;
    let r = head && (last == 17 || last == 15 || last == 19);
    proof {
        if r {
            if last == 17 {
                assert(oid@ =~= seq![2u64, 5u64, 29u64, 17u64]);
            } else if last == 15 {
                assert(oid@ =~= seq![2u64, 5u64, 29u64, 15u64]);
            } else {
                assert(oid@ =~= seq![2u64, 5u64, 29u64, 19u64]);
            }
        }
    }
    r
}

/// Drops the standard extensions from a parsed extension list, keeping the
/// rest in order.
fn custom_extensions(exts: &Vec<(Vec<u64>, Vec<u8>)>) -> (r: Vec<(Vec<u64>, Vec<u8>)>)
    ensures
        r@.map_values(|p: (Vec<u64>, Vec<u8>)| (p.0@, p.1@)) == spec_custom_extensions(
            exts@.map_values(|p: (Vec<u64>, Vec<u8>)| (p.0@, p.1@)),
        ),
{
    let ghost target = exts@.map_values(|p: (Vec<u64>, Vec<u8>)| (p.0@, p.1@));
    let mut r: Vec<(Vec<u64>, Vec<u8>)> = Vec::new();
    let mut i: usize = 0;
    while i < exts.len()
        invariant
            0 <= i <= exts@.len(),
            target == exts@.map_values(|p: (Vec<u64>, Vec<u8>)| (p.0@, p.1@)),
            r@.map_values(|p: (Vec<u64>, Vec<u8>)| (p.0@, p.1@)) == spec_custom_extensions(
                target.take(i as int),
            ),
        decreases exts@.len() - i,
    {
        proof {
            assert(target.take(i + 1).drop_last() =~= target.take(i as int));
            assert(target.take(i + 1).last() == target[i as int]);
        }
        if !is_standard_ext_oid(&exts[i].0) {
            let ghost prev = r@;
            let item = (clone_u64s(&exts[i].0), clone_bytes(&exts[i].1));
            let ghost iv = (item.0@, item.1@);
            r.push(item);
            proof {
                assert(prev.map_values(|p: (Vec<u64>, Vec<u8>)| (p.0@, p.1@)).len() == prev.len());
                let rmapped = r@.map_values(|p: (Vec<u64>, Vec<u8>)| (p.0@, p.1@));
                let want = spec_custom_extensions(target.take(i + 1));
                assert(want == spec_custom_extensions(target.take(i as int)).push(
                    target[i as int],
                ));
                assert forall|m: int| 0 <= m < rmapped.len() implies #[trigger] rmapped[m]
                    == want[m] by {
                    if m < prev.len() {
                        assert(prev.map_values(|p: (Vec<u64>, Vec<u8>)| (p.0@, p.1@))[m]
                            == spec_custom_extensions(target.take(i as int))[m]);
                        assert(r@[m] == prev[m]);
                    } else {
                        assert((r@[m].0@, r@[m].1@) == iv);
                    }
                }
                assert(rmapped.len() == want.len());
                assert(rmapped =~= want);
            }
        }
        i = i + 1;
    }
    proof {
        assert(target.take(exts@.len() as int) =~= target);
    }
    r
}

/// Compares a parsed extension list with the granted one.
fn ext_list_eq(a: &Vec<(Vec<u64>, Vec<u8>)>, b: &Vec<X509Extension>) -> (r: bool)
    ensures
        r <==> a@.map_values(|p: (Vec<u64>, Vec<u8>)| (p.0@, p.1@)) == b@.map_values(
            |e: X509Extension| (e.oid@, e.content@),
        ),
{
    let ghost am = a@.map_values(|p: (Vec<u64>, Vec<u8>)| (p.0@, p.1@));
    let ghost bm = b@.map_values(|e: X509Extension| (e.oid@, e.content@));
    if a.len() != b.len() {
        proof {
            assert(am.len() != bm.len());
        }
        return false;
    }
    let mut i: usize = 0;
    while i < a.len()
        invariant
            0 <= i <= a@.len(),
            a@.len() == b@.len(),
            am == a@.map_values(|p: (Vec<u64>, Vec<u8>)| (p.0@, p.1@)),
            bm == b@.map_values(|e: X509Extension| (e.oid@, e.content@)),
            forall|m: int| 0 <= m < i ==> #[trigger] am[m] == bm[m],
        decreases a@.len() - i,
    {
        if !(a[i].0 == b[i].oid) || !(a[i].1 == b[i].content) {
            proof {
                if am[i as int] == bm[i as int] {
                    assert(a@[i as int].0@ == b@[i as int].oid@);
                    assert(a@[i as int].1@ == b@[i as int].content@);
                }
            }
            return false;
        }
        proof {
            assert(a@[i as int].0@ =~= b@[i as int].oid@);
            assert(a@[i as int].1@ =~= b@[i as int].content@);
        }
        i = i + 1;
    }
    proof {
        assert(am =~= bm);
    }
    true
}

/// The post-signing check of the attested path: the new certificate is
/// returned only when it parses, its subjectPublicKeyInfo equals the
/// attestation leaf's, and it carries the granted CommonName — as the
/// subject and as the sole rfc822 alternative name — the granted serial
/// and validity window, a digital-signature-only key usage and no CA
/// flag; anything else is rejected.
pub fn x509_finalize(
    new_cert_der: Vec<u8>,
    attestation_leaf_der: &Vec<u8>,
    params: &X509IssueParams,
) -> (r: Result<Vec<u8>, RusticaServerError>)
    ensures
        r matches Ok(c) ==> c@ == new_cert_der@,
        r is Ok <==> spec_x509_finalize_ok(new_cert_der@, attestation_leaf_der@, *params),
        r matches Err(e) ==> e == RusticaServerError::NotAuthorized,
{
    let new_info = match parse_x509_cert(&new_cert_der) {
        Some(c) => c,
        None => {
            return Err(RusticaServerError::NotAuthorized);
        },
    };
    let leaf_info = match parse_x509_cert(attestation_leaf_der) {
        Some(c) => c,
        None => {
            return Err(RusticaServerError::NotAuthorized);
        },
    };
    if !(new_info.spki == leaf_info.spki) {
        return Err(RusticaServerError::NotAuthorized);
    }
    assert(new_info.spki@ =~= leaf_info.spki@);
    // The subject must be exactly the granted CommonName.
    if new_info.identities.len() != 1 {
        proof {
            assert(new_info.identities@.map_values(|v: Vec<u8>| v@).len()
                == new_info.identities@.len());
        }
        return Err(RusticaServerError::NotAuthorized);
    }
    if !(new_info.identities[0] == params.common_name) {
        proof {
            if new_info.identities@.map_values(|v: Vec<u8>| v@) == seq![params.common_name@] {
                assert(new_info.identities@.map_values(|v: Vec<u8>| v@)[0]
                    == params.common_name@);
                assert(new_info.identities@[0]@ == params.common_name@);
            }
        }
        return Err(RusticaServerError::NotAuthorized);
    }
    proof {
        assert(new_info.identities@[0]@ =~= params.common_name@);
        assert(new_info.identities@.map_values(|v: Vec<u8>| v@) =~= seq![params.common_name@]);
    }
    // The validity window must be the granted one.
    if params.not_before > 0x7FFFFFFFFFFFFFFFu64 || params.not_after > 0x7FFFFFFFFFFFFFFFu64 {
        return Err(RusticaServerError::NotAuthorized);
    }
    if new_info.not_before != params.not_before as i64 {
        return Err(RusticaServerError::NotAuthorized);
    }
    if new_info.not_after != params.not_after as i64 {
        return Err(RusticaServerError::NotAuthorized);
    }
    // The serial must be the granted one, as the signer's DER writes it.
    let expected_serial = der_unsigned_integer(&params.serial_le);
    if !(new_info.serial_der == expected_serial) {
        return Err(RusticaServerError::NotAuthorized);
    }
    assert(new_info.serial_der@ =~= spec_der_unsigned_integer(params.serial_le@));
    // Key usage must be exactly digitalSignature, and the CA flag clear.
    match new_info.key_usage {
        Some(flags) => {
            if flags != 1 {
                return Err(RusticaServerError::NotAuthorized);
            }
        },
        None => {
            return Err(RusticaServerError::NotAuthorized);
        },
    }
    if let Some(true) = new_info.basic_constraints_ca {
        return Err(RusticaServerError::NotAuthorized);
    }
    // The subject alternative names must be the granted rfc822 name alone.
    let sans = match parse_x509_sans(&new_cert_der) {
        Some(Some(list)) => list,
        Some(None) => {
            return Err(RusticaServerError::NotAuthorized);
        },
        None => {
            return Err(RusticaServerError::NotAuthorized);
        },
    };
    if sans.len() != 1 {
        proof {
            assert(sans@.map_values(|p: (u8, Vec<u8>)| (p.0, p.1@)).len() == sans@.len());
        }
        return Err(RusticaServerError::NotAuthorized);
    }
    if sans[0].0 != 1 {
        proof {
            let mapped = sans@.map_values(|p: (u8, Vec<u8>)| (p.0, p.1@));
            assert(mapped[0] == (sans@[0].0, sans@[0].1@));
            if mapped == seq![(1u8, params.common_name@)] {
                assert(mapped[0].0 == 1u8);
            }
        }
        return Err(RusticaServerError::NotAuthorized);
    }
    if !(sans[0].1 == params.common_name) {
        proof {
            let mapped = sans@.map_values(|p: (u8, Vec<u8>)| (p.0, p.1@));
            if mapped == seq![(1u8, params.common_name@)] {
                assert(mapped[0] == (1u8, params.common_name@));
                assert(sans@[0].1@ == params.common_name@);
            }
        }
        return Err(RusticaServerError::NotAuthorized);
    }
    proof {
        assert(sans@[0].1@ =~= params.common_name@);
        assert(sans@.map_values(|p: (u8, Vec<u8>)| (p.0, p.1@)) =~= seq![
            (1u8, params.common_name@),
        ]);
    }
    // Beyond the standard extensions set above, the certificate must carry
    // exactly the granted custom extensions.
    let all_extensions = match parse_x509_extensions(&new_cert_der) {
        Some(list) => list,
        None => {
            return Err(RusticaServerError::NotAuthorized);
        },
    };
    let customs = custom_extensions(&all_extensions);
    if !ext_list_eq(&customs, &params.extensions) {
        return Err(RusticaServerError::NotAuthorized);
    }
    Ok(new_cert_der)
}

/// The whole signing step of the attested path: rejects validity bounds
/// the certificate date format cannot carry, parses the caller's CSR,
/// overwrites its subject and constraints with the issuance parameters,
/// signs it with the authority's attested-X.509 CA, and returns the DER
/// only when it carries the attestation leaf's subjectPublicKeyInfo and
/// the granted fields. Every failure is an opaque `NotAuthorized`.
pub fn issue_attested_x509(
    csr_der: &Vec<u8>,
    params: &X509IssueParams,
    ca: &rcgen::Certificate,
    attestation_leaf_der: &Vec<u8>,
) -> (r: Result<Vec<u8>, RusticaServerError>)
    ensures
        r matches Ok(c) ==> spec_x509_finalize_ok(c@, attestation_leaf_der@, *params),
        (params.not_before > crate::x509ca::MAX_X509_ENCODABLE_TIME || params.not_after
            > crate::x509ca::MAX_X509_ENCODABLE_TIME) ==> r is Err,
        (exists|i: int|
            0 <= i < params.extensions@.len() && !crate::x509ca::spec_valid_der_oid(
                (#[trigger] params.extensions@[i]).oid@,
            )) ==> r is Err,
        r matches Err(e) ==> e == RusticaServerError::NotAuthorized,
{
    // A validity bound past what a certificate date can encode is refused
    // before any parameter reaches the signer.
    if params.not_before > crate::x509ca::MAX_X509_ENCODABLE_TIME || params.not_after
        > crate::x509ca::MAX_X509_ENCODABLE_TIME {
        return Err(RusticaServerError::NotAuthorized);
    }
    // So is an extension OID the DER writer cannot encode.
    let mut i: usize = 0;
    while i < params.extensions.len()
        invariant
            0 <= i <= params.extensions@.len(),
            forall|m: int|
                0 <= m < i ==> crate::x509ca::spec_valid_der_oid(
                    (#[trigger] params.extensions@[m]).oid@,
                ),
        decreases params.extensions@.len() - i,
    {
        if !valid_der_oid(&params.extensions[i].oid) {
            return Err(RusticaServerError::NotAuthorized);
        }
        i = i + 1;
    }
    let mut csr = match crate::x509ca::parse_csr(csr_der) {
        Some(c) => c,
        None => {
            return Err(RusticaServerError::NotAuthorized);
        },
    };
    if !crate::x509ca::apply_issue_subject(&mut csr, params) {
        return Err(RusticaServerError::NotAuthorized);
    }
    crate::x509ca::apply_issue_constraints(&mut csr, params);
    let signed = match crate::x509ca::sign_csr(&csr, ca) {
        Some(s) => s,
        None => {
            return Err(RusticaServerError::NotAuthorized);
        },
    };
    x509_finalize(signed, attestation_leaf_der, params)
}

/// When the attested path returns a certificate: it parses, the
/// attestation leaf parses, and the two carry the same
/// subjectPublicKeyInfo.
pub open spec fn spec_spki_match(new_cert: Seq<u8>, leaf: Seq<u8>) -> bool {
    match (spec_parse_x509_cert(new_cert), spec_parse_x509_cert(leaf)) {
        (Some(n), Some(l)) => n.spki == l.spki,
        _ => false,
    }
}

/// What the attested finalize step accepts: the SPKI match, and a
/// subject, alternative name, serial, validity window, key usage and CA
/// flag exactly as issuance decided.
pub open spec fn spec_x509_finalize_ok(new_cert: Seq<u8>, leaf: Seq<u8>, p: X509IssueParams) -> bool {
    &&& spec_spki_match(new_cert, leaf)
    &&& (match spec_parse_x509_cert(new_cert) {
        Some(n) => {
            &&& n.identities == seq![p.common_name@]
            &&& n.sans == Some(seq![(1u8, p.common_name@)])
            &&& n.serial_der == spec_der_unsigned_integer(p.serial_le@)
            &&& p.not_before <= i64::MAX && n.not_before == p.not_before as i64
            &&& p.not_after <= i64::MAX && n.not_after == p.not_after as i64
            &&& n.key_usage == Some(1u16)
            &&& n.basic_constraints_ca != Some(true)
            &&& spec_custom_extensions(n.extensions) == p.extensions@.map_values(
                |e: X509Extension| (e.oid@, e.content@),
            )
        },
        None => false,
    })
}

/// Every certificate the attested path returns carries exactly the
/// attestation leaf's subjectPublicKeyInfo, the granted CommonName as its
/// subject and sole rfc822 alternative name, the granted serial and
/// validity window, a digital-signature-only key usage, no CA flag, and
/// the granted custom extensions beyond the standard ones.
pub proof fn lemma_attested_spki(new_cert: Seq<u8>, leaf: Seq<u8>, p: X509IssueParams)
    requires
        spec_x509_finalize_ok(new_cert, leaf, p),
    ensures
        spec_parse_x509_cert(new_cert) matches Some(n) && spec_parse_x509_cert(leaf) matches Some(
            l,
        ) && {
            &&& n.spki == l.spki
            &&& n.identities == seq![p.common_name@]
            &&& n.sans == Some(seq![(1u8, p.common_name@)])
            &&& n.serial_der == spec_der_unsigned_integer(p.serial_le@)
            &&& n.not_before == p.not_before as i64
            &&& n.not_after == p.not_after as i64
            &&& n.key_usage == Some(1u16)
            &&& n.basic_constraints_ca != Some(true)
            &&& spec_custom_extensions(n.extensions) == p.extensions@.map_values(
                |e: X509Extension| (e.oid@, e.content@),
            )
        },
{
}

} // verus!
