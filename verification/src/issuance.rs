//! The SSH certificate issuance pipeline.
//!
//! After the challenge is validated the pipeline runs three verified steps
//! around the two asynchronous backend calls made outside the library:
//! `certificate_pre_authorize` rejects bad windows and types and resolves
//! the signing key before the authorization call; `compose_certificate`
//! turns the authorization result into the exact template to sign; and
//! `certificate_finalize` parses the signed bytes back and accepts them
//! only when they carry the template's subject key, serial, key id,
//! principals and validity.

use vstd::prelude::*;
use crate::bytesutil::{clone_bytes, push_all, spec_ascii_bytes, str_to_bytes};
use crate::errors::{spec_error_code, spec_error_name, RusticaServerError};
use crate::signing::{CertType, SigningMechanism};
use crate::sshkeys::{parse_ssh_cert, spec_parse_ssh_cert};

verus! {

/// The payload of a certificate request, as plain values.
#[derive(Debug)]
pub struct CertificateRequestData {
    /// Requested certificate type: 1 for user, 2 for host.
    pub cert_type: u32,
    /// Requested authority; empty selects the default authority.
    pub key_id: Vec<u8>,
    pub principals: Vec<Vec<u8>>,
    pub servers: Vec<Vec<u8>>,
    pub valid_after: u64,
    pub valid_before: u64,
}

/// What the authorization backend is asked about an SSH request.
#[derive(Debug)]
pub struct SshAuthorizationRequestProperties {
    pub fingerprint: Vec<u8>,
    pub mtls_identities: Vec<Vec<u8>>,
    pub requester_ip: Vec<u8>,
    pub principals: Vec<Vec<u8>>,
    pub servers: Vec<Vec<u8>>,
    pub cert_type: CertType,
    pub valid_after: u64,
    pub valid_before: u64,
    pub authority: Vec<u8>,
}

/// What the authorization backend granted. The backend may override the
/// requested authority; the certificate is signed by `authority` here.
#[derive(Debug)]
pub struct Authorization {
    pub serial: u64,
    pub valid_before: u64,
    pub valid_after: u64,
    pub principals: Vec<Vec<u8>>,
    pub hosts: Option<Vec<Vec<u8>>>,
    pub extensions: Vec<(Vec<u8>, Vec<u8>)>,
    pub force_command: Option<Vec<u8>>,
    pub force_source_ip: bool,
    pub authority: Vec<u8>,
}

/// The certificate endpoint's reply; errors travel inline in `error` and
/// `error_code`, not as transport failures.
#[derive(Debug)]
pub struct CertificateResponse {
    pub certificate: Vec<u8>,
    pub error: Vec<u8>,
    pub error_code: i64,
    pub new_client_certificate: Vec<u8>,
    pub new_client_key: Vec<u8>,
}

/// An error reply: empty certificate fields, the taxonomy name and code.
pub fn create_response(e: RusticaServerError) -> (r: CertificateResponse)
    ensures
        r.certificate@.len() == 0,
        r.error@ == spec_error_name(e),
        r.error_code == spec_error_code(e),
        r.new_client_certificate@.len() == 0,
        r.new_client_key@.len() == 0,
{
    CertificateResponse {
        certificate: Vec::new(),
        error: e.name(),
        error_code: e.code(),
        new_client_certificate: Vec::new(),
        new_client_key: Vec::new(),
    }
}

/// The certificate type a wire value selects.
pub open spec fn spec_requested_cert_type(c: u32) -> Option<CertType> {
    if c == 1 {
        Some(CertType::User)
    } else if c == 2 {
        Some(CertType::Host)
    } else {
        None
    }
}

/// The authority a request selects: the request's `key_id`, or the default
/// authority when it is empty.
pub open spec fn spec_selected_authority(key_id: Seq<u8>, default_authority: Seq<u8>) -> Seq<u8> {
    if key_id.len() == 0 {
        default_authority
    } else {
        key_id
    }
}

/// Pre-authorization checks, in order: the validity window must not be
/// inverted or already expired, the certificate type must be user or host,
/// and the selected authority must exist and carry a key of that role.
/// Success yields the authorization request and the signer's fingerprint.
pub fn certificate_pre_authorize(
    signer: &SigningMechanism,
    request: &CertificateRequestData,
    fingerprint: &Vec<u8>,
    identities: &Vec<Vec<u8>>,
    requester_ip: &Vec<u8>,
    now: u64,
) -> (r: Result<(SshAuthorizationRequestProperties, Vec<u8>), RusticaServerError>)
    ensures
        ({
            let bad_window = request.valid_before < request.valid_after || now
                > request.valid_before;
            let ct = spec_requested_cert_type(request.cert_type);
            let authority = spec_selected_authority(
                request.key_id@,
                signer.spec_default_authority(),
            );
            if bad_window || ct is None {
                r == Err::<(SshAuthorizationRequestProperties, Vec<u8>), _>(
                    RusticaServerError::BadCertOptions,
                )
            } else {
                match signer.spec_authority_index(authority) {
                    None => r == Err::<(SshAuthorizationRequestProperties, Vec<u8>), _>(
                        RusticaServerError::NotAuthorized,
                    ),
                    Some(i) => {
                        let fp = match ct.unwrap() {
                            CertType::User => signer.spec_authorities()[i].user_fp,
                            CertType::Host => signer.spec_authorities()[i].host_fp,
                        };
                        match fp {
                            None => r == Err::<(SshAuthorizationRequestProperties, Vec<u8>), _>(
                                RusticaServerError::NotAuthorized,
                            ),
                            Some(f) => r matches Ok(p) && {
                                &&& p.1@ == f
                                &&& p.0.fingerprint@ == fingerprint@
                                &&& p.0.mtls_identities@.map_values(|v: Vec<u8>| v@)
                                    == identities@.map_values(|v: Vec<u8>| v@)
                                &&& p.0.requester_ip@ == requester_ip@
                                &&& p.0.principals@.map_values(|v: Vec<u8>| v@)
                                    == request.principals@.map_values(|v: Vec<u8>| v@)
                                &&& p.0.servers@.map_values(|v: Vec<u8>| v@)
                                    == request.servers@.map_values(|v: Vec<u8>| v@)
                                &&& p.0.cert_type == ct.unwrap()
                                &&& p.0.valid_after == request.valid_after
                                &&& p.0.valid_before == request.valid_before
                                &&& p.0.authority@ == authority
                            },
                        }
                    },
                }
            }
        }),
{
    if request.valid_before < request.valid_after || now > request.valid_before {
        // An inverted window or one that already ended is rejected before
        // any backend is consulted.
        return Err(RusticaServerError::BadCertOptions);
    }
    let cert_type = if request.cert_type == 1 {
        CertType::User
    } else if request.cert_type == 2 {
        CertType::Host
    } else {
        return Err(RusticaServerError::BadCertOptions);
    };
    let authority = if request.key_id.len() == 0 {
        clone_bytes(signer.default_authority_name())
    } else {
        clone_bytes(&request.key_id)
    };
    let ca_fingerprint = match signer.get_signer_public_key(&authority, cert_type) {
        Ok(entry) => clone_bytes(&entry.fingerprint),
        Err(_) => {
            return Err(RusticaServerError::NotAuthorized);
        },
    };
    let props = SshAuthorizationRequestProperties {
        fingerprint: clone_bytes(fingerprint),
        mtls_identities: clone_bytes_list(identities),
        requester_ip: clone_bytes(requester_ip),
        principals: clone_bytes_list(&request.principals),
        servers: clone_bytes_list(&request.servers),
        cert_type,
        valid_after: request.valid_after,
        valid_before: request.valid_before,
        authority,
    };
    Ok((props, ca_fingerprint))
}

/// Copies a list of byte vectors.
pub fn clone_bytes_list(v: &Vec<Vec<u8>>) -> (r: Vec<Vec<u8>>)
    ensures
        r@.map_values(|x: Vec<u8>| x@) == v@.map_values(|x: Vec<u8>| x@),
{
    let ghost target = v@.map_values(|x: Vec<u8>| x@);
    let mut r: Vec<Vec<u8>> = Vec::new();
    let mut i: usize = 0;
    while i < v.len()
        invariant
            0 <= i <= v@.len(),
            target == v@.map_values(|x: Vec<u8>| x@),
            r@.map_values(|x: Vec<u8>| x@) == target.take(i as int),
        decreases v@.len() - i,
    {
        let ghost prev = r@;
        let item = clone_bytes(&v[i]);
        let ghost iv = item@;
        r.push(item);
        proof {
            assert(prev.map_values(|x: Vec<u8>| x@).len() == prev.len());
            let rmapped = r@.map_values(|x: Vec<u8>| x@);
            assert forall|m: int| 0 <= m < i + 1 implies #[trigger] rmapped[m] == target.take(
                i + 1,
            )[m] by {
                if m < i {
                    assert(prev.map_values(|x: Vec<u8>| x@)[m] == target.take(i as int)[m]);
                    assert(r@[m] == prev[m]);
                } else {
                    assert(r@[m]@ == iv);
                }
            }
            assert(rmapped =~= target.take(i + 1));
        }
        i = i + 1;
    }
    proof {
        assert(target.take(v@.len() as int) =~= target);
    }
    r
}

/// Compares two lists of byte strings.
pub fn bytes_list_eq(a: &Vec<Vec<u8>>, b: &Vec<Vec<u8>>) -> (r: bool)
    ensures
        r <==> a@.map_values(|x: Vec<u8>| x@) == b@.map_values(|x: Vec<u8>| x@),
{
    let ghost am = a@.map_values(|x: Vec<u8>| x@);
    let ghost bm = b@.map_values(|x: Vec<u8>| x@);
    if a.len() != b.len() {
        proof {
            assert(am.len() != bm.len());
        }
        return false;
    }
    let mut i: usize = 0;
    while i < a.len()
        invariant
            0 <= i <= a@.len(),
            a@.len() == b@.len(),
            am == a@.map_values(|x: Vec<u8>| x@),
            bm == b@.map_values(|x: Vec<u8>| x@),
            forall|m: int| 0 <= m < i ==> #[trigger] am[m] == bm[m],
        decreases a@.len() - i,
    {
        if !(a[i] == b[i]) {
            proof {
                assert(am[i as int] != bm[i as int]);
            }
            return false;
        }
        proof {
            assert(a@[i as int]@ =~= b@[i as int]@);
        }
        i = i + 1;
    }
    proof {
        assert(am =~= bm);
    }
    true
}

/// Everything the signed certificate must carry, decided by verified code
/// before the signing backend is called.
#[derive(Debug)]
pub struct CertTemplate {
    /// The HMAC-attested public key the certificate is for.
    pub pubkey: Vec<u8>,
    /// The fingerprint of that key.
    pub key_fp: Vec<u8>,
    /// The fingerprint of the key expected to sign the certificate: the
    /// granted authority's key for this certificate type.
    pub signer_fp: Vec<u8>,
    pub cert_type: CertType,
    pub serial: u64,
    pub key_id: Vec<u8>,
    pub principals: Vec<Vec<u8>>,
    pub valid_after: u64,
    pub valid_before: u64,
    pub critical_options: Vec<(Vec<u8>, Vec<u8>)>,
    pub extensions: Vec<(Vec<u8>, Vec<u8>)>,
}

/// The critical options an authorization dictates: `force-command` when
/// set, then `source-address` bound to the caller's IP when the backend
/// forces it.
pub open spec fn spec_critical_options(
    force_command: Option<Seq<u8>>,
    force_source_ip: bool,
    requester_ip: Seq<u8>,
) -> Seq<(Seq<u8>, Seq<u8>)> {
    (match force_command {
        Some(c) => seq![(spec_ascii_bytes("force-command"@), c)],
        None => Seq::empty(),
    }) + (if force_source_ip {
        seq![(spec_ascii_bytes("source-address"@), requester_ip)]
    } else {
        Seq::empty()
    })
}

/// The key id every issued certificate carries.
pub open spec fn spec_issued_key_id(fingerprint: Seq<u8>) -> Seq<u8> {
    spec_ascii_bytes("Rustica-JITC-for-"@) + fingerprint
}

/// Builds the certificate template from the authorization result: the
/// granted serial, principals and validity, the issued key id, and the
/// dictated critical options and extensions.
pub fn compose_certificate(
    authorization: &Authorization,
    pubkey: &Vec<u8>,
    fingerprint: &Vec<u8>,
    signer_fp: &Vec<u8>,
    requester_ip: &Vec<u8>,
    cert_type: CertType,
) -> (r: CertTemplate)
    ensures
        r.pubkey@ == pubkey@,
        r.key_fp@ == fingerprint@,
        r.signer_fp@ == signer_fp@,
        r.cert_type == cert_type,
        r.serial == authorization.serial,
        r.key_id@ == spec_issued_key_id(fingerprint@),
        r.principals@.map_values(|v: Vec<u8>| v@) == authorization.principals@.map_values(
            |v: Vec<u8>| v@,
        ),
        r.valid_after == authorization.valid_after,
        r.valid_before == authorization.valid_before,
        r.critical_options@.map_values(|p: (Vec<u8>, Vec<u8>)| (p.0@, p.1@))
            == spec_critical_options(
            match authorization.force_command {
                Some(c) => Some(c@),
                None => None,
            },
            authorization.force_source_ip,
            requester_ip@,
        ),
        r.extensions@.map_values(|p: (Vec<u8>, Vec<u8>)| (p.0@, p.1@))
            == authorization.extensions@.map_values(|p: (Vec<u8>, Vec<u8>)| (p.0@, p.1@)),
{
    let mut key_id = match str_to_bytes("Rustica-JITC-for-") {
        Some(k) => k,
        None => {
            proof {
                reveal_strlit("Rustica-JITC-for-");
                assert(false);
            }
            Vec::new()
        },
    };
    push_all(&mut key_id, fingerprint);
    let mut critical_options: Vec<(Vec<u8>, Vec<u8>)> = Vec::new();
    if let Some(cmd) = &authorization.force_command {
        let key = ascii_literal_bytes_force_command();
        critical_options.push((key, clone_bytes(cmd)));
    }
    if authorization.force_source_ip {
        let key = ascii_literal_bytes_source_address();
        critical_options.push((key, clone_bytes(requester_ip)));
    }
    proof {
        assert(critical_options@.map_values(|p: (Vec<u8>, Vec<u8>)| (p.0@, p.1@))
            =~= spec_critical_options(
            match authorization.force_command {
                Some(c) => Some(c@),
                None => None,
            },
            authorization.force_source_ip,
            requester_ip@,
        ));
    }
    CertTemplate {
        pubkey: clone_bytes(pubkey),
        key_fp: clone_bytes(fingerprint),
        signer_fp: clone_bytes(signer_fp),
        cert_type,
        serial: authorization.serial,
        key_id,
        principals: clone_bytes_list(&authorization.principals),
        valid_after: authorization.valid_after,
        valid_before: authorization.valid_before,
        critical_options,
        extensions: clone_pairs(&authorization.extensions),
    }
}

/// The bytes of `force-command`.
fn ascii_literal_bytes_force_command() -> (r: Vec<u8>)
    ensures
        r@ == spec_ascii_bytes("force-command"@),
{
    match str_to_bytes("force-command") {
        Some(k) => k,
        None => {
            proof {
                reveal_strlit("force-command");
                assert(false);
            }
            Vec::new()
        },
    }
}

/// The bytes of `source-address`.
fn ascii_literal_bytes_source_address() -> (r: Vec<u8>)
    ensures
        r@ == spec_ascii_bytes("source-address"@),
{
    match str_to_bytes("source-address") {
        Some(k) => k,
        None => {
            proof {
                reveal_strlit("source-address");
                assert(false);
            }
            Vec::new()
        },
    }
}

/// Copies a list of byte-string pairs.
pub fn clone_pairs(v: &Vec<(Vec<u8>, Vec<u8>)>) -> (r: Vec<(Vec<u8>, Vec<u8>)>)
    ensures
        r@.map_values(|p: (Vec<u8>, Vec<u8>)| (p.0@, p.1@)) == v@.map_values(
            |p: (Vec<u8>, Vec<u8>)| (p.0@, p.1@),
        ),
{
    let ghost target = v@.map_values(|p: (Vec<u8>, Vec<u8>)| (p.0@, p.1@));
    let mut r: Vec<(Vec<u8>, Vec<u8>)> = Vec::new();
    let mut i: usize = 0;
    while i < v.len()
        invariant
            0 <= i <= v@.len(),
            target == v@.map_values(|p: (Vec<u8>, Vec<u8>)| (p.0@, p.1@)),
            r@.map_values(|p: (Vec<u8>, Vec<u8>)| (p.0@, p.1@)) == target.take(i as int),
        decreases v@.len() - i,
    {
        let ghost prev = r@;
        let item = (clone_bytes(&v[i].0), clone_bytes(&v[i].1));
        let ghost iv = (item.0@, item.1@);
        r.push(item);
        proof {
            assert(prev.map_values(|p: (Vec<u8>, Vec<u8>)| (p.0@, p.1@)).len() == prev.len());
            let rmapped = r@.map_values(|p: (Vec<u8>, Vec<u8>)| (p.0@, p.1@));
            assert forall|m: int| 0 <= m < i + 1 implies #[trigger] rmapped[m] == target.take(
                i + 1,
            )[m] by {
                if m < i {
                    assert(prev.map_values(|p: (Vec<u8>, Vec<u8>)| (p.0@, p.1@))[m] == target.take(
                        i as int,
                    )[m]);
                    assert(r@[m] == prev[m]);
                } else {
                    assert((r@[m].0@, r@[m].1@) == iv);
                }
            }
            assert(rmapped =~= target.take(i + 1));
        }
        i = i + 1;
    }
    proof {
        assert(target.take(v@.len() as int) =~= target);
    }
    r
}

/// Opportunistic rolling reissuance of the caller's mTLS certificate: a
/// fresh key pair and certificate for the caller's identities, valid for
/// the hinted window, signed by the client CA. The certificate PEM parses
/// back to a certificate whose CommonName is the caller's first identity
/// and whose validity is the hinted window; the key material is random.
/// A window past what a certificate date can encode yields no
/// certificate.
pub fn reissue_client_certificate(
    identities: &Vec<Vec<u8>>,
    refresh: &crate::challenge::CertificateRefreshSettings,
    ca: &rcgen::Certificate,
) -> (r: Option<(Vec<u8>, Vec<u8>)>)
    ensures
        r matches Some(p) ==> p.0@.len() > 0 && p.1@.len() > 0,
        r matches Some(p) ==> crate::mtls::spec_parse_x509_pem(p.0@) is Some,
        (refresh.not_before > crate::x509ca::MAX_X509_ENCODABLE_TIME || refresh.not_after
            > crate::x509ca::MAX_X509_ENCODABLE_TIME) ==> r is None,
        r matches Some(p) ==> ((identities@.len() > 0 && crate::bytesutil::spec_is_utf8(
            identities@[0]@,
        )) ==> ({
            let v = crate::mtls::spec_parse_x509_pem(p.0@).unwrap();
            &&& v.identities == seq![identities@[0]@]
            &&& v.not_before == refresh.not_before as i64
            &&& v.not_after == refresh.not_after as i64
        })),
{
    if refresh.not_before > crate::x509ca::MAX_X509_ENCODABLE_TIME || refresh.not_after
        > crate::x509ca::MAX_X509_ENCODABLE_TIME {
        return None;
    }
    crate::x509ca::mint_client_certificate(identities, refresh.not_before, refresh.not_after, ca)
}

/// Looks a pair up in an unordered pair list.
fn pairs_contains(v: &Vec<(Vec<u8>, Vec<u8>)>, key: &Vec<u8>, value: &Vec<u8>) -> (r: bool)
    ensures
        r <==> v@.map_values(|p: (Vec<u8>, Vec<u8>)| (p.0@, p.1@)).contains((key@, value@)),
{
    let ghost vm = v@.map_values(|p: (Vec<u8>, Vec<u8>)| (p.0@, p.1@));
    let mut i: usize = 0;
    while i < v.len()
        invariant
            0 <= i <= v@.len(),
            vm == v@.map_values(|p: (Vec<u8>, Vec<u8>)| (p.0@, p.1@)),
            forall|m: int| 0 <= m < i ==> #[trigger] vm[m] != (key@, value@),
        decreases v@.len() - i,
    {
        if v[i].0 == *key && v[i].1 == *value {
            proof {
                assert(v@[i as int].0@ =~= key@);
                assert(v@[i as int].1@ =~= value@);
                assert(vm[i as int] == (key@, value@));
            }
            return true;
        }
        proof {
            if v@[i as int].0@ == key@ && v@[i as int].1@ == value@ {
                assert(false);
            }
        }
        i = i + 1;
    }
    false
}

/// Compares two unordered pair lists as sets.
pub fn pairs_set_eq(a: &Vec<(Vec<u8>, Vec<u8>)>, b: &Vec<(Vec<u8>, Vec<u8>)>) -> (r: bool)
    ensures
        r <==> a@.map_values(|p: (Vec<u8>, Vec<u8>)| (p.0@, p.1@)).to_set() == b@.map_values(
            |p: (Vec<u8>, Vec<u8>)| (p.0@, p.1@),
        ).to_set(),
{
    let ghost am = a@.map_values(|p: (Vec<u8>, Vec<u8>)| (p.0@, p.1@));
    let ghost bm = b@.map_values(|p: (Vec<u8>, Vec<u8>)| (p.0@, p.1@));
    let mut i: usize = 0;
    while i < a.len()
        invariant
            0 <= i <= a@.len(),
            am == a@.map_values(|p: (Vec<u8>, Vec<u8>)| (p.0@, p.1@)),
            bm == b@.map_values(|p: (Vec<u8>, Vec<u8>)| (p.0@, p.1@)),
            forall|m: int| 0 <= m < i ==> bm.contains(#[trigger] am[m]),
        decreases a@.len() - i,
    {
        if !pairs_contains(b, &a[i].0, &a[i].1) {
            proof {
                assert(am[i as int] == (a@[i as int].0@, a@[i as int].1@));
                assert(am.to_set().contains(am[i as int]));
                assert(!bm.to_set().contains(am[i as int]));
            }
            return false;
        }
        proof {
            assert(am[i as int] == (a@[i as int].0@, a@[i as int].1@));
        }
        i = i + 1;
    }
    let mut j: usize = 0;
    while j < b.len()
        invariant
            0 <= j <= b@.len(),
            am == a@.map_values(|p: (Vec<u8>, Vec<u8>)| (p.0@, p.1@)),
            bm == b@.map_values(|p: (Vec<u8>, Vec<u8>)| (p.0@, p.1@)),
            forall|m: int| 0 <= m < am.len() ==> bm.contains(#[trigger] am[m]),
            forall|m: int| 0 <= m < j ==> am.contains(#[trigger] bm[m]),
        decreases b@.len() - j,
    {
        if !pairs_contains(a, &b[j].0, &b[j].1) {
            proof {
                assert(bm[j as int] == (b@[j as int].0@, b@[j as int].1@));
                assert(bm.to_set().contains(bm[j as int]));
                assert(!am.to_set().contains(bm[j as int]));
            }
            return false;
        }
        proof {
            assert(bm[j as int] == (b@[j as int].0@, b@[j as int].1@));
        }
        j = j + 1;
    }
    proof {
        assert(am.to_set() =~= bm.to_set());
    }
    true
}

/// When the finalize step accepts signed bytes for a template: they parse
/// back (which checks the inner signature) to a certificate carrying the
/// template's subject key fingerprint, signer fingerprint, type, serial,
/// key id, principals, validity window, critical options and extensions.
pub open spec fn spec_finalize_ok(serialized: Seq<u8>, template: CertTemplate) -> bool {
    match spec_parse_ssh_cert(serialized) {
        Some(v) => {
            &&& v.key_fp == template.key_fp@
            &&& v.sig_key_fp == template.signer_fp@
            &&& v.cert_type == crate::signing::spec_cert_type_code(template.cert_type)
            &&& v.serial == template.serial
            &&& v.key_id == template.key_id@
            &&& v.principals == template.principals@.map_values(|p: Vec<u8>| p@)
            &&& v.valid_after == template.valid_after
            &&& v.valid_before == template.valid_before
            &&& v.critical_options == template.critical_options@.map_values(
                |p: (Vec<u8>, Vec<u8>)| (p.0@, p.1@),
            ).to_set()
            &&& v.extensions == template.extensions@.map_values(
                |p: (Vec<u8>, Vec<u8>)| (p.0@, p.1@),
            ).to_set()
        },
        None => false,
    }
}

/// The post-signing self check: parses the signed certificate back and
/// accepts it exactly when it carries what was composed — including the
/// expected signing key; anything else is `BadCertOptions`.
pub fn certificate_finalize(serialized: Vec<u8>, template: &CertTemplate) -> (r: Result<
    Vec<u8>,
    RusticaServerError,
>)
    ensures
        r matches Ok(c) ==> c@ == serialized@,
        r is Ok <==> spec_finalize_ok(serialized@, *template),
        r matches Err(e) ==> e == RusticaServerError::BadCertOptions,
{
    let parsed = match parse_ssh_cert(&serialized) {
        Some(c) => c,
        None => {
            return Err(RusticaServerError::BadCertOptions);
        },
    };
    if !(parsed.key_fp == template.key_fp) {
        return Err(RusticaServerError::BadCertOptions);
    }
    assert(parsed.key_fp@ =~= template.key_fp@);
    if !(parsed.sig_key_fp == template.signer_fp) {
        return Err(RusticaServerError::BadCertOptions);
    }
    assert(parsed.sig_key_fp@ =~= template.signer_fp@);
    if parsed.cert_type != crate::signing::cert_type_code(template.cert_type) {
        return Err(RusticaServerError::BadCertOptions);
    }
    if parsed.serial != template.serial {
        return Err(RusticaServerError::BadCertOptions);
    }
    if !(parsed.key_id == template.key_id) {
        return Err(RusticaServerError::BadCertOptions);
    }
    assert(parsed.key_id@ =~= template.key_id@);
    if !bytes_list_eq(&parsed.principals, &template.principals) {
        return Err(RusticaServerError::BadCertOptions);
    }
    if parsed.valid_after != template.valid_after {
        return Err(RusticaServerError::BadCertOptions);
    }
    if parsed.valid_before != template.valid_before {
        return Err(RusticaServerError::BadCertOptions);
    }
    if !pairs_set_eq(&parsed.critical_options, &template.critical_options) {
        return Err(RusticaServerError::BadCertOptions);
    }
    if !pairs_set_eq(&parsed.extensions, &template.extensions) {
        return Err(RusticaServerError::BadCertOptions);
    }
    Ok(serialized)
}

/// Every certificate the pipeline returns parses back to one whose subject
/// key fingerprint is the HMAC-attested key's and whose signing key
/// fingerprint is the selected authority's — the composed template carries
/// both, and the finalize check accepts nothing else.
pub proof fn lemma_issued_subject_key(serialized: Seq<u8>, template: CertTemplate)
    requires
        spec_finalize_ok(serialized, template),
    ensures
        spec_parse_ssh_cert(serialized) matches Some(v) && v.key_fp == template.key_fp@
            && v.sig_key_fp == template.signer_fp@,
{
}

/// Every certificate the pipeline returns parses back to one whose serial,
/// principals, validity window, critical options and extensions are
/// exactly the composed (authorization-dictated) ones, and whose key id is
/// the issued one.
pub proof fn lemma_issued_certificate_round_trip(serialized: Seq<u8>, template: CertTemplate)
    requires
        spec_finalize_ok(serialized, template),
        template.key_id@ == spec_issued_key_id(template.key_fp@),
    ensures
        spec_parse_ssh_cert(serialized) matches Some(v) && {
            &&& v.serial == template.serial
            &&& v.principals == template.principals@.map_values(|p: Vec<u8>| p@)
            &&& v.valid_after == template.valid_after
            &&& v.valid_before == template.valid_before
            &&& v.key_id == spec_issued_key_id(template.key_fp@)
            &&& v.critical_options == template.critical_options@.map_values(
                |p: (Vec<u8>, Vec<u8>)| (p.0@, p.1@),
            ).to_set()
            &&& v.extensions == template.extensions@.map_values(
                |p: (Vec<u8>, Vec<u8>)| (p.0@, p.1@),
            ).to_set()
        },
{
}

} // verus!
