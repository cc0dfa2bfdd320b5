//! The signing registry: named authorities, each exposing up to four
//! capabilities (SSH user key, SSH host key, attested-X.509 CA, client
//! mTLS CA), with the startup key-uniqueness validation.
//!
//! Backends themselves (file, hardware token, cloud KMS) are asynchronous
//! external collaborators; they are constructed outside the library, which
//! receives each authority's memoized public material and CA handles. The
//! asynchronous signing call is dispatched outside as well; the registry
//! here answers every synchronous question the pipeline asks.

use vstd::prelude::*;
use crate::bytesutil::clone_bytes;
use crate::errors::SigningError;

verus! {

/// Which SSH signing role a certificate request asks for.
#[derive(Clone, Copy, Debug, PartialEq, Eq, Structural)]
pub enum CertType {
    User,
    Host,
}

/// The wire value of a certificate type; `User` is 1, `Host` is 2.
pub open spec fn spec_cert_type_code(t: CertType) -> u32 {
    match t {
        CertType::User => 1,
        CertType::Host => 2,
    }
}

/// The wire value of a certificate type.
pub fn cert_type_code(t: CertType) -> (r: u32)
    ensures
        r == spec_cert_type_code(t),
{
    match t {
        CertType::User => 1,
        CertType::Host => 2,
    }
}

/// A memoized SSH public key of a backend: its text form and its SHA-256
/// fingerprint.
#[derive(Debug)]
pub struct SshKeyEntry {
    pub pubkey: Vec<u8>,
    pub fingerprint: Vec<u8>,
}

/// What a constructed backend exposes synchronously.
pub struct SignerCapabilities {
    pub user_key: Option<SshKeyEntry>,
    pub host_key: Option<SshKeyEntry>,
    pub attested_x509_authority: Option<rcgen::Certificate>,
    pub client_certificate_authority: Option<rcgen::Certificate>,
}

/// One named signing authority.
pub struct Authority {
    pub name: Vec<u8>,
    pub capabilities: SignerCapabilities,
}

/// The mathematical view of an authority: its name, the fingerprints of
/// its SSH keys, and which CAs it carries.
pub ghost struct AuthorityView {
    pub name: Seq<u8>,
    pub user_fp: Option<Seq<u8>>,
    pub host_fp: Option<Seq<u8>>,
    pub has_attested_x509_authority: bool,
    pub has_client_certificate_authority: bool,
}

/// The view of one authority.
pub open spec fn spec_authority_view(a: Authority) -> AuthorityView {
    AuthorityView {
        name: a.name@,
        user_fp: match a.capabilities.user_key {
            Some(k) => Some(k.fingerprint@),
            None => None,
        },
        host_fp: match a.capabilities.host_key {
            Some(k) => Some(k.fingerprint@),
            None => None,
        },
        has_attested_x509_authority: a.capabilities.attested_x509_authority is Some,
        has_client_certificate_authority: a.capabilities.client_certificate_authority is Some,
    }
}

/// The fingerprints one authority contributes, user key first.
pub open spec fn spec_authority_fp_seq(a: AuthorityView) -> Seq<Seq<u8>> {
    (match a.user_fp {
        Some(f) => seq![f],
        None => Seq::empty(),
    }) + (match a.host_fp {
        Some(f) => seq![f],
        None => Seq::empty(),
    })
}

/// All SSH key fingerprints of a registry, in authority order.
pub open spec fn spec_registry_fps(vs: Seq<AuthorityView>) -> Seq<Seq<u8>>
    decreases vs.len(),
{
    if vs.len() == 0 {
        Seq::empty()
    } else {
        spec_registry_fps(vs.drop_last()) + spec_authority_fp_seq(vs.last())
    }
}

/// Whether an authority holds the fingerprint in either of its roles.
pub open spec fn spec_authority_has_fp(v: AuthorityView, f: Seq<u8>) -> bool {
    v.user_fp == Some(f) || v.host_fp == Some(f)
}

/// The startup invariant: no fingerprint appears twice anywhere in the
/// registry. This covers both a key shared between two authorities and one
/// authority using the same key for its user and host roles.
pub open spec fn spec_registry_keys_unique(vs: Seq<AuthorityView>) -> bool {
    spec_registry_fps(vs).no_duplicates()
}

/// The registry of signing authorities. Values exist only through
/// `convert_to_signing_mechanism`, which enforces the key-uniqueness
/// invariant.
pub struct SigningMechanism {
    pub default_authority: Vec<u8>,
    authorities: Vec<Authority>,
}

impl SigningMechanism {
    /// The views of the registered authorities, in registration order.
    pub closed spec fn spec_authorities(&self) -> Seq<AuthorityView> {
        self.authorities@.map_values(|a: Authority| spec_authority_view(a))
    }

    /// The default authority name.
    pub closed spec fn spec_default_authority(&self) -> Seq<u8> {
        self.default_authority@
    }

    /// The configured default authority.
    pub fn default_authority_name(&self) -> (r: &Vec<u8>)
        ensures
            r@ == self.spec_default_authority(),
    {
        &self.default_authority
    }

    /// The first authority with the given name, if any.
    pub open spec fn spec_authority_index(&self, name: Seq<u8>) -> Option<int> {
        spec_first_index_named(self.spec_authorities(), name, 0)
    }
}

/// The smallest index at or after `k` whose authority bears `name`.
pub open spec fn spec_first_index_named(vs: Seq<AuthorityView>, name: Seq<u8>, k: int) -> Option<
    int,
>
    decreases vs.len() - k,
{
    if k < 0 || k >= vs.len() {
        None
    } else if vs[k].name == name {
        Some(k)
    } else {
        spec_first_index_named(vs, name, k + 1)
    }
}

/// The fingerprints of a prefix extend one authority at a time.
proof fn lemma_registry_fps_take(vs: Seq<AuthorityView>, i: int)
    requires
        0 <= i < vs.len(),
    ensures
        spec_registry_fps(vs.take(i + 1)) == spec_registry_fps(vs.take(i)) + spec_authority_fp_seq(
            vs[i],
        ),
{
    assert(vs.take(i + 1).drop_last() =~= vs.take(i));
    assert(vs.take(i + 1).last() == vs[i]);
}

/// Every prefix's fingerprint sequence is a prefix of the whole one.
proof fn lemma_registry_fps_prefix(vs: Seq<AuthorityView>, i: int)
    requires
        0 <= i <= vs.len(),
    ensures
        spec_registry_fps(vs.take(i)).is_prefix_of(spec_registry_fps(vs)),
    decreases vs.len() - i,
{
    if i == vs.len() {
        assert(vs.take(i) =~= vs);
    } else {
        lemma_registry_fps_take(vs, i);
        lemma_registry_fps_prefix(vs, i + 1);
    }
}

/// Looks up a fingerprint among those already seen; `Some` holds the index
/// of a matching entry.
fn find_seen(seen: &Vec<(Vec<u8>, Vec<u8>)>, fp: &Vec<u8>) -> (r: Option<usize>)
    ensures
        r matches Some(k) ==> 0 <= k < seen@.len() && seen@[k as int].0@ == fp@,
        r is None ==> forall|k: int| 0 <= k < seen@.len() ==> #[trigger] seen@[k].0@ != fp@,
{
    let mut k: usize = 0;
    while k < seen.len()
        invariant
            0 <= k <= seen@.len(),
            forall|m: int| 0 <= m < k ==> #[trigger] seen@[m].0@ != fp@,
        decreases seen@.len() - k,
    {
        if seen[k].0 == *fp {
            assert(seen@[k as int].0@ =~= fp@);
            return Some(k);
        }
        k = k + 1;
    }
    None
}

/// Builds the signing registry from constructed authorities, enforcing the
/// startup invariant: construction succeeds exactly when no SSH public-key
/// fingerprint occurs twice, across authorities or between the user and
/// host roles of one authority.
pub fn convert_to_signing_mechanism(default_authority: Vec<u8>, authorities: Vec<Authority>) -> (r:
    Result<SigningMechanism, SigningError>)
    ensures
        r is Ok <==> spec_registry_keys_unique(
            authorities@.map_values(|a: Authority| spec_authority_view(a)),
        ),
        r matches Ok(m) ==> {
            &&& m.spec_authorities() == authorities@.map_values(
                |a: Authority| spec_authority_view(a),
            )
            &&& m.spec_default_authority() == default_authority@
        },
        r matches Err(e) ==> (match e {
            SigningError::IdenticalUserAndHostKey(n) => exists|i: int|
                0 <= i < authorities@.len() && (#[trigger] spec_authority_view(
                    authorities@[i],
                )).name == n@ && spec_authority_view(authorities@[i]).user_fp is Some
                    && spec_authority_view(authorities@[i]).user_fp == spec_authority_view(
                    authorities@[i],
                ).host_fp,
            SigningError::DuplicatedKey(a, b) => exists|i: int, j: int, f: Seq<u8>|
                0 <= i < authorities@.len() && 0 <= j < authorities@.len()
                    && spec_authority_view(authorities@[i]).name == a@ && spec_authority_view(
                    authorities@[j],
                ).name == b@ && #[trigger] spec_authority_has_fp(
                    spec_authority_view(authorities@[i]),
                    f,
                ) && #[trigger] spec_authority_has_fp(spec_authority_view(authorities@[j]), f),
            _ => false,
        }),
{
    let ghost vs = authorities@.map_values(|a: Authority| spec_authority_view(a));
    let mut seen: Vec<(Vec<u8>, Vec<u8>)> = Vec::new();
    let mut i: usize = 0;
    while i < authorities.len()
        invariant
            0 <= i <= authorities@.len(),
            vs == authorities@.map_values(|a: Authority| spec_authority_view(a)),
            seen@.map_values(|p: (Vec<u8>, Vec<u8>)| p.0@) == spec_registry_fps(vs.take(i as int)),
            spec_registry_fps(vs.take(i as int)).no_duplicates(),
            forall|k: int| 0 <= k < seen@.len() ==> exists|j: int|
                0 <= j < i && vs[j].name == (#[trigger] seen@[k]).1@ && spec_authority_has_fp(
                    vs[j],
                    seen@[k].0@,
                ),
        decreases authorities@.len() - i,
    {
        let ghost seen0 = seen@;
        let ghost seen_fps = seen@.map_values(|p: (Vec<u8>, Vec<u8>)| p.0@);
        let authority = &authorities[i];
        assert(spec_authority_view(authorities@[i as int]) == vs[i as int]);
        // A backend must not use one key for both its roles.
        if let (Some(user), Some(host)) = (
            &authority.capabilities.user_key,
            &authority.capabilities.host_key,
        ) {
            if user.fingerprint == host.fingerprint {
                proof {
                    assert(user.fingerprint@ =~= host.fingerprint@);
                    lemma_registry_fps_take(vs, i as int);
                    let fps = spec_registry_fps(vs.take(i + 1));
                    assert(fps[fps.len() - 2] == fps[fps.len() - 1]);
                    lemma_registry_fps_prefix(vs, i + 1);
                    assert(spec_registry_fps(vs)[fps.len() - 2] == spec_registry_fps(vs)[fps.len()
                        - 1]);
                }
                return Err(SigningError::IdenticalUserAndHostKey(clone_bytes(&authority.name)));
            }
        }
        if let Some(user) = &authority.capabilities.user_key {
            if let Some(k) = find_seen(&seen, &user.fingerprint) {
                let owner = clone_bytes(&seen[k].1);
                proof {
                    lemma_registry_fps_take(vs, i as int);
                    let fps = spec_registry_fps(vs.take(i + 1));
                    assert(fps[k as int] == fps[seen_fps.len() as int]);
                    lemma_registry_fps_prefix(vs, i + 1);
                    let whole = spec_registry_fps(vs);
                    assert(whole[k as int] == whole[seen_fps.len() as int]);
                    // The entry's recorded owner holds the same fingerprint.
                    let f = user.fingerprint@;
                    let j = choose|j: int|
                        0 <= j < i && vs[j].name == seen@[k as int].1@ && spec_authority_has_fp(
                            vs[j],
                            seen@[k as int].0@,
                        );
                    assert(spec_authority_view(authorities@[j]) == vs[j]);
                    assert(spec_authority_has_fp(spec_authority_view(authorities@[j]), f));
                    assert(vs[i as int].user_fp == Some(f));
                    assert(spec_authority_has_fp(spec_authority_view(authorities@[i as int]), f));
                }
                return Err(
                    SigningError::DuplicatedKey(clone_bytes(&authority.name), owner),
                );
            }
            let entry = (clone_bytes(&user.fingerprint), clone_bytes(&authority.name));
            seen.push(entry);
        }
        let ghost seen_fps2 = seen@.map_values(|p: (Vec<u8>, Vec<u8>)| p.0@);
        if let Some(host) = &authority.capabilities.host_key {
            if let Some(k) = find_seen(&seen, &host.fingerprint) {
                let owner = clone_bytes(&seen[k].1);
                proof {
                    lemma_registry_fps_take(vs, i as int);
                    let fps = spec_registry_fps(vs.take(i + 1));
                    assert(seen_fps2 == seen_fps + spec_authority_fp_seq(vs[i as int]).take(
                        (seen_fps2.len() - seen_fps.len()) as int,
                    ));
                    assert(fps[k as int] == fps[fps.len() - 1]);
                    lemma_registry_fps_prefix(vs, i + 1);
                    let whole = spec_registry_fps(vs);
                    assert(whole[k as int] == whole[fps.len() - 1]);
                    // The matching entry belongs to an earlier authority:
                    // a fresh entry for this authority's user key would
                    // equal the host key, which was rejected above.
                    let f = host.fingerprint@;
                    assert(vs[i as int].host_fp == Some(f));
                    assert(spec_authority_has_fp(spec_authority_view(authorities@[i as int]), f));
                    if k < seen0.len() {
                        assert(seen@[k as int] == seen0[k as int]);
                        let j = choose|j: int|
                            0 <= j < i && vs[j].name == seen0[k as int].1@
                                && spec_authority_has_fp(vs[j], seen0[k as int].0@);
                        assert(spec_authority_view(authorities@[j]) == vs[j]);
                        assert(spec_authority_has_fp(spec_authority_view(authorities@[j]), f));
                    } else {
                        assert(seen@[k as int].0@ == vs[i as int].user_fp.unwrap());
                        assert(vs[i as int].user_fp == Some(f));
                        assert(false);
                    }
                }
                return Err(
                    SigningError::DuplicatedKey(clone_bytes(&authority.name), owner),
                );
            }
            let entry = (clone_bytes(&host.fingerprint), clone_bytes(&authority.name));
            seen.push(entry);
        }
        proof {
            lemma_registry_fps_take(vs, i as int);
            assert(seen@.map_values(|p: (Vec<u8>, Vec<u8>)| p.0@) =~= spec_registry_fps(
                vs.take(i + 1),
            ));
        }
        i = i + 1;
    }
    proof {
        assert(vs.take(authorities@.len() as int) =~= vs);
    }
    Ok(SigningMechanism { default_authority, authorities })
}

impl SigningMechanism {
    /// Finds the authority with the given name.
    fn find_authority(&self, name: &Vec<u8>) -> (r: Option<usize>)
        ensures
            match r {
                Some(k) => self.spec_authority_index(name@) == Some(k as int) && k
                    < self.authorities@.len() && self.spec_authorities()[k as int].name == name@,
                None => self.spec_authority_index(name@) is None,
            },
            self.spec_authorities().len() == self.authorities@.len(),
    {
        let ghost vs = self.spec_authorities();
        let mut k: usize = 0;
        while k < self.authorities.len()
            invariant
                0 <= k <= self.authorities@.len(),
                vs == self.spec_authorities(),
                vs.len() == self.authorities@.len(),
                spec_first_index_named(vs, name@, 0) == spec_first_index_named(
                    vs,
                    name@,
                    k as int,
                ),
            decreases self.authorities@.len() - k,
        {
            if self.authorities[k].name == *name {
                proof {
                    assert(self.authorities@[k as int].name@ =~= name@);
                    assert(vs[k as int].name == name@);
                }
                return Some(k);
            }
            proof {
                assert(vs[k as int].name != name@);
            }
            k = k + 1;
        }
        None
    }

    /// The signing public key of `authority` for `cert_type`:
    /// `UnknownAuthority` when the name is not registered,
    /// `SignerDoesNotHaveSSHKeys` when it has no key of that role.
    pub fn get_signer_public_key(&self, authority: &Vec<u8>, cert_type: CertType) -> (r: Result<
        &SshKeyEntry,
        SigningError,
    >)
        ensures
            self.spec_authority_index(authority@) is None <==> (r matches Err(e) && e
                matches SigningError::UnknownAuthority(n) && n@ == authority@),
            ({
                let idx = self.spec_authority_index(authority@);
                idx matches Some(i) ==> {
                    let fp = match cert_type {
                        CertType::User => self.spec_authorities()[i].user_fp,
                        CertType::Host => self.spec_authorities()[i].host_fp,
                    };
                    match fp {
                        Some(f) => r matches Ok(k) && k.fingerprint@ == f,
                        None => r == Err::<&SshKeyEntry, _>(
                            SigningError::SignerDoesNotHaveSSHKeys,
                        ),
                    }
                }
            }),
    {
        let k = match self.find_authority(authority) {
            Some(k) => k,
            None => {
                return Err(SigningError::UnknownAuthority(clone_bytes(authority)));
            },
        };
        assert(self.spec_authorities()[k as int] == spec_authority_view(
            self.authorities@[k as int],
        ));
        let key = match cert_type {
            CertType::User => &self.authorities[k].capabilities.user_key,
            CertType::Host => &self.authorities[k].capabilities.host_key,
        };
        match key {
            Some(entry) => Ok(entry),
            None => Err(SigningError::SignerDoesNotHaveSSHKeys),
        }
    }

    /// The attested-X.509 CA of `authority`: `UnknownAuthority` when the
    /// name is not registered, otherwise the CA handle if the backend
    /// carries one.
    pub fn get_attested_x509_certificate_authority(&self, authority: &Vec<u8>) -> (r: Result<
        Option<&rcgen::Certificate>,
        SigningError,
    >)
        ensures
            r is Ok <==> self.spec_authority_index(authority@) is Some,
            r matches Err(e) ==> (e matches SigningError::UnknownAuthority(n) && n@
                == authority@),
            ({
                let idx = self.spec_authority_index(authority@);
                idx matches Some(i) ==> (r matches Ok(ca) && ((ca is Some)
                    <==> self.spec_authorities()[i].has_attested_x509_authority))
            }),
    {
        match self.find_authority(authority) {
            Some(k) => {
                assert(self.spec_authorities()[k as int] == spec_authority_view(
                    self.authorities@[k as int],
                ));
                Ok(self.authorities[k].capabilities.attested_x509_authority.as_ref())
            },
            None => Err(SigningError::UnknownAuthority(clone_bytes(authority))),
        }
    }

    /// The client-mTLS CA of `authority`: `UnknownAuthority` when the name
    /// is not registered, otherwise the CA handle if the backend carries
    /// one.
    pub fn get_client_certificate_authority(&self, authority: &Vec<u8>) -> (r: Result<
        Option<&rcgen::Certificate>,
        SigningError,
    >)
        ensures
            r is Ok <==> self.spec_authority_index(authority@) is Some,
            r matches Err(e) ==> (e matches SigningError::UnknownAuthority(n) && n@
                == authority@),
            ({
                let idx = self.spec_authority_index(authority@);
                idx matches Some(i) ==> (r matches Ok(ca) && ((ca is Some)
                    <==> self.spec_authorities()[i].has_client_certificate_authority))
            }),
    {
        match self.find_authority(authority) {
            Some(k) => {
                assert(self.spec_authorities()[k as int] == spec_authority_view(
                    self.authorities@[k as int],
                ));
                Ok(self.authorities[k].capabilities.client_certificate_authority.as_ref())
            },
            None => Err(SigningError::UnknownAuthority(clone_bytes(authority))),
        }
    }

    /// The names of all registered authorities, in registration order.
    pub fn get_authorities(&self) -> (r: Vec<Vec<u8>>)
        ensures
            r@.map_values(|n: Vec<u8>| n@) == self.spec_authorities().map_values(
                |a: AuthorityView| a.name,
            ),
    {
        let ghost vs = self.spec_authorities();
        let mut r: Vec<Vec<u8>> = Vec::new();
        let mut k: usize = 0;
        while k < self.authorities.len()
            invariant
                0 <= k <= self.authorities@.len(),
                vs == self.spec_authorities(),
                vs.len() == self.authorities@.len(),
                r@.map_values(|n: Vec<u8>| n@) == vs.map_values(|a: AuthorityView| a.name).take(
                    k as int,
                ),
            decreases self.authorities@.len() - k,
        {
            assert(vs[k as int] == spec_authority_view(self.authorities@[k as int]));
            let name = clone_bytes(&self.authorities[k].name);
            let ghost nv = name@;
            let ghost prev = r@;
            r.push(name);
            proof {
                assert(nv == vs[k as int].name);
                assert(r@ == prev.push(name));
                let mapped = vs.map_values(|a: AuthorityView| a.name);
                assert(prev.map_values(|n: Vec<u8>| n@).len() == prev.len());
                assert(prev.len() == k);
                let rmapped = r@.map_values(|n: Vec<u8>| n@);
                assert forall|m: int| 0 <= m < k + 1 implies #[trigger] rmapped[m] == mapped.take(
                    k + 1,
                )[m] by {
                    if m < k {
                        assert(prev.map_values(|n: Vec<u8>| n@)[m] == mapped.take(k as int)[m]);
                        assert(r@[m] == prev[m]);
                    } else {
                        assert(r@[m]@ == nv);
                    }
                }
                assert(rmapped =~= mapped.take(k + 1));
            }
            k = k + 1;
        }
        proof {
            assert(vs.map_values(|a: AuthorityView| a.name).take(vs.len() as int) =~= vs.map_values(
                |a: AuthorityView| a.name,
            ));
        }
        r
    }
}

/// No two backends of a validly constructed registry share an SSH
/// public-key fingerprint, and no backend uses one key for both its user
/// and host roles.
pub proof fn lemma_registry_key_uniqueness(vs: Seq<AuthorityView>, i: int, j: int)
    requires
        spec_registry_keys_unique(vs),
        0 <= i < vs.len(),
        0 <= j < vs.len(),
    ensures
        i != j ==> (vs[i].user_fp is Some ==> vs[i].user_fp != vs[j].user_fp && vs[i].user_fp
            != vs[j].host_fp),
        i != j ==> (vs[i].host_fp is Some ==> vs[i].host_fp != vs[j].user_fp && vs[i].host_fp
            != vs[j].host_fp),
        vs[i].user_fp is Some ==> vs[i].user_fp != vs[i].host_fp,
{
    lemma_fp_positions(vs, i);
    lemma_fp_positions(vs, j);
    if i < j {
        lemma_fps_len_mono(vs, i + 1, j);
        lemma_registry_fps_take(vs, i);
    } else if j < i {
        lemma_fps_len_mono(vs, j + 1, i);
        lemma_registry_fps_take(vs, j);
    }
}

/// Prefix fingerprint sequences grow with the prefix.
proof fn lemma_fps_len_mono(vs: Seq<AuthorityView>, a: int, b: int)
    requires
        0 <= a <= b <= vs.len(),
    ensures
        spec_registry_fps(vs.take(a)).len() <= spec_registry_fps(vs.take(b)).len(),
    decreases b - a,
{
    if a < b {
        lemma_registry_fps_take(vs, a);
        lemma_fps_len_mono(vs, a + 1, b);
    }
}

/// Where authority `i`'s fingerprints sit inside the flat fingerprint
/// sequence: immediately after the prefix up to `i`.
proof fn lemma_fp_positions(vs: Seq<AuthorityView>, i: int)
    requires
        0 <= i < vs.len(),
    ensures
        ({
            let before = spec_registry_fps(vs.take(i)).len() as int;
            let whole = spec_registry_fps(vs);
            &&& spec_registry_fps(vs.take(i + 1)).len() <= whole.len()
            &&& (vs[i].user_fp matches Some(f) ==> before < whole.len() && whole[before] == f)
            &&& (vs[i].host_fp matches Some(f) ==> {
                let off = if vs[i].user_fp is Some {
                    before + 1
                } else {
                    before
                };
                off < whole.len() && whole[off] == f
            })
        }),
{
    lemma_registry_fps_take(vs, i);
    lemma_registry_fps_prefix(vs, i + 1);
    let before = spec_registry_fps(vs.take(i)).len() as int;
    let step = spec_registry_fps(vs.take(i + 1));
    let whole = spec_registry_fps(vs);
    assert(step =~= whole.subrange(0, step.len() as int));
    if vs[i].user_fp is Some {
        let f = vs[i].user_fp.unwrap();
        assert(spec_authority_fp_seq(vs[i])[0] == f);
        assert(step[before] == f);
        assert(whole[before] == step[before]);
    }
    if vs[i].host_fp is Some {
        let f = vs[i].host_fp.unwrap();
        let off = if vs[i].user_fp is Some {
            before + 1
        } else {
            before
        };
        assert(spec_authority_fp_seq(vs[i])[off - before] == f);
        assert(step[off] == f);
        assert(whole[off] == step[off]);
    }
}

} // verus!
