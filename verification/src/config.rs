//! Service configuration and the startup assembly of a runnable server.
//!
//! The file reading, TOML parsing and command-line handling happen outside
//! the library; they deliver the plain values below. `build_rustica_settings`
//! performs the startup validation the service must not run without: the
//! registry key-uniqueness check, the default-authority check, and the
//! client-CA resolution.

use vstd::prelude::*;
use crate::allowed_signers::AllowedSignersCache;
use crate::bytesutil::clone_bytes;
use crate::errors::{ConfigurationError, SigningError};
use crate::rate_limit::{limiter_new, spec_limiter_capacity, spec_limiter_entries};
use crate::signing::{
    convert_to_signing_mechanism, spec_authority_view, Authority, AuthorityView, CertType,
    SigningMechanism,
};
use crate::sshkeys::{generate_challenge_key, ChallengeKey};
use crate::x509ca::serialize_ca_pem;

verus! {

/// Which authority issues rolling mTLS client certificates, and when.
#[derive(Debug)]
pub struct ClientAuthorityConfiguration {
    pub authority: Vec<u8>,
    /// Seconds a reissued client certificate lives.
    pub validity_length: u64,
    /// Reissue when the peer certificate expires within this many seconds.
    pub expiration_renewal_period: u64,
}

/// Tuning of the allowed-signers endpoint.
#[derive(Debug)]
pub struct AllowedSignersConfiguration {
    /// Seconds a refreshed cache entry is served.
    pub cache_validity_length: u64,
    /// Capacity of the rate-limiter LRU; must not be zero.
    pub lru_rate_limiter_size: usize,
    /// Seconds between served requests for one identity.
    pub rate_limit_cooldown: u64,
}

/// A file-backed signing authority: inline or path-referenced key
/// material, each role optional.
#[derive(Debug)]
pub struct FileSignerConfig {
    pub user_key: Option<Vec<u8>>,
    pub host_key: Option<Vec<u8>>,
    pub x509_certificate_authority: Option<Vec<u8>>,
    pub client_certificate_authority: Option<Vec<u8>>,
}

/// The kinds of signing backend a configuration may name.
#[derive(Debug)]
pub enum SignerType {
    File(FileSignerConfig),
}

/// A completely external signing service.
#[derive(Debug)]
pub struct ExternalSigningConfig {
    pub server: Vec<u8>,
    pub port: Vec<u8>,
    pub ca: Vec<u8>,
    pub mtls_cert: Vec<u8>,
    pub mtls_key: Vec<u8>,
}

/// The signing section: the default authority and each named backend.
#[derive(Debug)]
pub struct SigningConfiguration {
    pub default_authority: Vec<u8>,
    pub authority_configurations: Vec<(Vec<u8>, SignerType)>,
}

/// The authorization backend: a local database path or a remote service.
#[derive(Debug)]
pub enum AuthorizationConfiguration {
    LocalDatabase(Vec<u8>),
    External(ExternalSigningConfig),
}

/// Which logging sink to use.
pub enum LoggingConfiguration {
    Stdout(crate::logging::Config),
}

/// The parsed configuration file.
pub struct Configuration {
    pub server_cert: Vec<u8>,
    pub server_key: Vec<u8>,
    pub client_authority: ClientAuthorityConfiguration,
    pub listen_address: Vec<u8>,
    pub authorization: AuthorizationConfiguration,
    pub signing: SigningConfiguration,
    pub require_rustica_proof: bool,
    pub require_attestation_chain: bool,
    pub logging: LoggingConfiguration,
    pub allowed_signers: AllowedSignersConfiguration,
}

/// The immutable per-process server state. The allowed-signers cache and
/// the rate limiter are mutable and live beside it, under the transport
/// layer's locks.
pub struct RusticaServer {
    pub hmac_key: Vec<u8>,
    pub challenge_key: ChallengeKey,
    pub signer: SigningMechanism,
    pub require_rustica_proof: bool,
    pub require_attestation_chain: bool,
    pub client_authority: ClientAuthorityConfiguration,
    pub allowed_signers: AllowedSignersConfiguration,
}

/// Everything a validated configuration yields: the server state, its
/// mutable companions, TLS material and the listen address.
pub struct RusticaSettings {
    pub server: RusticaServer,
    pub allowed_signers_cache: AllowedSignersCache,
    pub allowed_signers_rate_limiter: lru::LruCache<Vec<u8>, u64>,
    pub client_ca_cert: Vec<u8>,
    pub server_cert: Vec<u8>,
    pub server_key: Vec<u8>,
    pub address: Vec<u8>,
}

/// Assembles a runnable server from the parsed configuration and the
/// constructed signing authorities, enforcing the startup invariants: the
/// registry's key uniqueness, an SSH user key on the default authority,
/// and a resolvable client CA. Any violation aborts startup with the
/// matching error.
pub fn build_rustica_settings(
    config: Configuration,
    authorities: Vec<Authority>,
) -> (r: Result<RusticaSettings, ConfigurationError>)
    requires
        config.allowed_signers.lru_rate_limiter_size >= 1,
    ensures
        r matches Ok(s) ==> {
            &&& crate::signing::spec_registry_keys_unique(s.server.signer.spec_authorities())
            &&& s.server.signer.spec_authorities() == authorities@.map_values(
                |a: Authority| spec_authority_view(a),
            )
            &&& s.server.signer.spec_default_authority() == config.signing.default_authority@
            &&& s.server.hmac_key@.len() == 32
            &&& s.server.require_rustica_proof == config.require_rustica_proof
            &&& s.server.require_attestation_chain == config.require_attestation_chain
            &&& s.allowed_signers_cache.compressed_allowed_signers@.len() == 0
            &&& s.allowed_signers_cache.expiry_timestamp == 0
            &&& (spec_limiter_entries(s.allowed_signers_rate_limiter) == Map::<Seq<u8>,
            u64>::empty())
            &&& spec_limiter_capacity(s.allowed_signers_rate_limiter)
                == config.allowed_signers.lru_rate_limiter_size
            &&& s.client_ca_cert@.len() > 0
            &&& (s.server.signer.spec_authority_index(config.signing.default_authority@)
                matches Some(i) && s.server.signer.spec_authorities()[i].user_fp is Some)
        },
        ({
            let vs = authorities@.map_values(|a: Authority| spec_authority_view(a));
            let default_missing = match crate::signing::spec_first_index_named(
                vs,
                config.signing.default_authority@,
                0,
            ) {
                Some(i) => vs[i].user_fp is None,
                None => true,
            };
            (r == Err::<RusticaSettings, _>(
                ConfigurationError::DefaultAuthorityDoesNotHaveSSHKeys,
            )) <==> (crate::signing::spec_registry_keys_unique(vs) && default_missing)
        }),
        ({
            let vs = authorities@.map_values(|a: Authority| spec_authority_view(a));
            let default_ok = match crate::signing::spec_first_index_named(
                vs,
                config.signing.default_authority@,
                0,
            ) {
                Some(i) => vs[i].user_fp is Some,
                None => false,
            };
            let client_idx = crate::signing::spec_first_index_named(
                vs,
                config.client_authority.authority@,
                0,
            );
            &&& ((crate::signing::spec_registry_keys_unique(vs) && default_ok && client_idx
                is None) ==> (r matches Err(e) && e
                matches ConfigurationError::SigningMechanismError(se) && se
                matches SigningError::UnknownAuthority(n) && n@
                == config.client_authority.authority@))
            &&& ((crate::signing::spec_registry_keys_unique(vs) && default_ok && (client_idx
                matches Some(i) && !vs[i].has_client_certificate_authority)) ==> (r matches Err(
                e,
            ) && e matches ConfigurationError::NoSuchSigningMechanismForClientCa(chosen, options)
                && chosen@ == config.client_authority.authority@ && options@.map_values(
                |n: Vec<u8>| n@,
            ) == vs.map_values(|a: AuthorityView| a.name)))
        }),
        !crate::signing::spec_registry_keys_unique(
            authorities@.map_values(|a: Authority| spec_authority_view(a)),
        ) ==> (r matches Err(e) && e matches ConfigurationError::SigningMechanismError(_)),
        r matches Err(e) ==> (e matches ConfigurationError::SigningMechanismError(_) || e
            matches ConfigurationError::DefaultAuthorityDoesNotHaveSSHKeys || e
            matches ConfigurationError::NoSuchSigningMechanismForClientCa(_, _) || e
            matches ConfigurationError::SSHKeyError),
{
    let signer = match convert_to_signing_mechanism(
        clone_bytes(&config.signing.default_authority),
        authorities,
    ) {
        Ok(s) => s,
        Err(e) => {
            return Err(ConfigurationError::SigningMechanismError(e));
        },
    };
    // The default authority must be able to issue user certificates.
    if signer.get_signer_public_key(
        &config.signing.default_authority,
        CertType::User,
    ).is_err() {
        return Err(ConfigurationError::DefaultAuthorityDoesNotHaveSSHKeys);
    }
    // The client-mTLS authority must resolve to a backend with a client
    // CA; this is decided by the registry alone, before any key material
    // is generated.
    let client_ca_cert = match signer.get_client_certificate_authority(
        &config.client_authority.authority,
    ) {
        Ok(Some(ca)) => match serialize_ca_pem(ca) {
            Some(pem) => pem,
            None => {
                return Err(
                    ConfigurationError::SigningMechanismError(
                        SigningError::AccessError(Vec::new()),
                    ),
                );
            },
        },
        Ok(None) => {
            let options = signer.get_authorities();
            return Err(
                ConfigurationError::NoSuchSigningMechanismForClientCa(
                    clone_bytes(&config.client_authority.authority),
                    options,
                ),
            );
        },
        Err(e) => {
            return Err(ConfigurationError::SigningMechanismError(e));
        },
    };
    let hmac_key = match crate::hmac::generate_hmac_key() {
        Some(k) => k,
        None => {
            return Err(
                ConfigurationError::SigningMechanismError(SigningError::AccessError(Vec::new())),
            );
        },
    };
    let challenge_key = match generate_challenge_key() {
        Some(k) => k,
        None => {
            return Err(ConfigurationError::SSHKeyError);
        },
    };
    let allowed_signers_rate_limiter = limiter_new(config.allowed_signers.lru_rate_limiter_size);
    let allowed_signers_cache = AllowedSignersCache {
        compressed_allowed_signers: Vec::new(),
        expiry_timestamp: 0,
    };
    let server = RusticaServer {
        hmac_key,
        challenge_key,
        signer,
        require_rustica_proof: config.require_rustica_proof,
        require_attestation_chain: config.require_attestation_chain,
        client_authority: config.client_authority,
        allowed_signers: config.allowed_signers,
    };
    Ok(
        RusticaSettings {
            server,
            allowed_signers_cache,
            allowed_signers_rate_limiter,
            client_ca_cert,
            server_cert: config.server_cert,
            server_key: config.server_key,
            address: config.listen_address,
        },
    )
}

} // verus!
