//! The allowed-signers distribution path: rendering, compression, the
//! read-mostly cache, and the client-side decoder.
//!
//! The payload is the newline-joined list of `identity SP pubkey` lines,
//! compressed with zstd. The cache stores the compressed bytes with an
//! expiry; within the validity window every response serves the same
//! bytes. Locking and the authorizer fetch happen outside the library.

use vstd::prelude::*;
use crate::bytesutil::{clone_bytes, join_bytes, push_all, spec_join};

verus! {

/// One allowed signer: an identity and its public key in OpenSSH text
/// form.
#[derive(Debug)]
pub struct AllowedSigner {
    pub identity: Vec<u8>,
    pub pubkey: Vec<u8>,
}

/// The cached allowed-signers payload: zstd-compressed bytes and the time
/// until which they are served. A fresh cache is empty and expired.
#[derive(Debug)]
pub struct AllowedSignersCache {
    pub compressed_allowed_signers: Vec<u8>,
    pub expiry_timestamp: u64,
}

/// What zstd decompression makes of a byte string: `None` when it is not a
/// valid frame. A function of the bytes alone.
pub uninterp spec fn spec_zstd_decompress(data: Seq<u8>) -> Option<Seq<u8>>;

/// Relies on `zstd::stream::encode_all` at the default level: compressing
/// an in-memory buffer does not fail short of allocation failure, and the
/// output is a frame that decompresses back to the input.
#[verifier::external_body]
pub(crate) fn zstd_compress(data: &Vec<u8>) -> (r: Vec<u8>)
    ensures
        spec_zstd_decompress(r@) == Some(data@),
{
    zstd::stream::encode_all(data.as_slice(), zstd::DEFAULT_COMPRESSION_LEVEL)
        .expect("compressing an in-memory buffer cannot fail")
}

/// Why a zstd decode did not produce data: the decoder could not be set
/// up (an environmental failure), or the bytes are not a valid frame.
#[derive(Clone, Copy, Debug, PartialEq, Eq, Structural)]
pub enum ZstdDecodeFailure {
    Initialization,
    InvalidData,
}

/// Relies on `zstd::stream::read::Decoder` and `Read::read_to_end`:
/// decompression of a byte slice is a function of the bytes, with a
/// decoder-setup failure reported apart from invalid data.
#[verifier::external_body]
pub(crate) fn zstd_decompress(data: &Vec<u8>) -> (r: Result<Vec<u8>, ZstdDecodeFailure>)
    ensures
        r matches Ok(v) ==> spec_zstd_decompress(data@) == Some(v@),
        (r matches Err(e) && e == ZstdDecodeFailure::InvalidData) ==> spec_zstd_decompress(data@)
            is None,
{
    let mut decoder = match zstd::stream::read::Decoder::new(data.as_slice()) {
        Ok(d) => d,
        Err(_) => {
            return Err(ZstdDecodeFailure::Initialization);
        },
    };
    let mut out: Vec<u8> = Vec::new();
    match std::io::Read::read_to_end(&mut decoder, &mut out) {
        Ok(_) => Ok(out),
        Err(_) => Err(ZstdDecodeFailure::InvalidData),
    }
}

/// One rendered line: `identity SP pubkey`.
pub open spec fn spec_signer_line(identity: Seq<u8>, pubkey: Seq<u8>) -> Seq<u8> {
    identity + seq![32u8] + pubkey
}

/// The whole allowed-signers text: lines joined by newline, no trailing
/// newline.
pub open spec fn spec_render_allowed_signers(signers: Seq<(Seq<u8>, Seq<u8>)>) -> Seq<u8> {
    spec_join(signers.map_values(|s: (Seq<u8>, Seq<u8>)| spec_signer_line(s.0, s.1)), 10u8)
}

/// Renders the allowed-signers list as `identity SP pubkey` lines joined
/// by newlines.
pub fn render_allowed_signers(signers: &Vec<AllowedSigner>) -> (r: Vec<u8>)
    ensures
        r@ == spec_render_allowed_signers(
            signers@.map_values(|s: AllowedSigner| (s.identity@, s.pubkey@)),
        ),
{
    let ghost pairs = signers@.map_values(|s: AllowedSigner| (s.identity@, s.pubkey@));
    let ghost target = pairs.map_values(|s: (Seq<u8>, Seq<u8>)| spec_signer_line(s.0, s.1));
    let mut lines: Vec<Vec<u8>> = Vec::new();
    let mut i: usize = 0;
    while i < signers.len()
        invariant
            0 <= i <= signers@.len(),
            pairs == signers@.map_values(|s: AllowedSigner| (s.identity@, s.pubkey@)),
            target == pairs.map_values(|s: (Seq<u8>, Seq<u8>)| spec_signer_line(s.0, s.1)),
            lines@.map_values(|l: Vec<u8>| l@) == target.take(i as int),
        decreases signers@.len() - i,
    {
        let mut line = clone_bytes(&signers[i].identity);
        line.push(32);
        push_all(&mut line, &signers[i].pubkey);
        let ghost lv = line@;
        let ghost prev = lines@;
        lines.push(line);
        proof {
            assert(lv =~= spec_signer_line(pairs[i as int].0, pairs[i as int].1));
            assert(prev.map_values(|l: Vec<u8>| l@).len() == prev.len());
            let lmapped = lines@.map_values(|l: Vec<u8>| l@);
            assert forall|m: int| 0 <= m < i + 1 implies #[trigger] lmapped[m] == target.take(
                i + 1,
            )[m] by {
                if m < i {
                    assert(prev.map_values(|l: Vec<u8>| l@)[m] == target.take(i as int)[m]);
                    assert(lines@[m] == prev[m]);
                } else {
                    assert(lines@[m]@ == lv);
                }
            }
            assert(lmapped =~= target.take(i + 1));
        }
        i = i + 1;
    }
    proof {
        assert(target.take(signers@.len() as int) =~= target);
    }
    join_bytes(&lines, 10)
}

/// Serves from the cache: the cached bytes exactly while the cache has not
/// expired.
pub fn cache_lookup(cache: &AllowedSignersCache, now: u64) -> (r: Option<Vec<u8>>)
    ensures
        r matches Some(b) ==> now <= cache.expiry_timestamp && b@
            == cache.compressed_allowed_signers@,
        (r is None) <==> now > cache.expiry_timestamp,
{
    if now <= cache.expiry_timestamp {
        Some(clone_bytes(&cache.compressed_allowed_signers))
    } else {
        None
    }
}

/// Refreshes the cache from a freshly fetched signer list: renders the
/// text, compresses it, and stores the bytes with expiry
/// `now + cache_validity_length`. The returned payload is what the cache
/// now serves, and it decompresses to the rendered text.
pub fn refresh_cache(
    cache: &mut AllowedSignersCache,
    signers: &Vec<AllowedSigner>,
    now: u64,
    cache_validity_length: u64,
) -> (r: Vec<u8>)
    requires
        now + cache_validity_length <= u64::MAX,
    ensures
        final(cache).compressed_allowed_signers@ == r@,
        final(cache).expiry_timestamp == now + cache_validity_length,
        spec_zstd_decompress(r@) == Some(
            spec_render_allowed_signers(
                signers@.map_values(|s: AllowedSigner| (s.identity@, s.pubkey@)),
            ),
        ),
{
    let rendered = render_allowed_signers(signers);
    let compressed = zstd_compress(&rendered);
    let out = clone_bytes(&compressed);
    cache.expiry_timestamp = now + cache_validity_length;
    cache.compressed_allowed_signers = compressed;
    out
}

/// Every response served from a cache within its validity window carries
/// byte-identical payloads: two lookups at any two times not after the
/// expiry both return the stored bytes.
pub proof fn lemma_cache_stability(cache: AllowedSignersCache, t1: u64, t2: u64)
    requires
        t1 <= cache.expiry_timestamp,
        t2 <= cache.expiry_timestamp,
    ensures
        spec_cache_lookup(cache, t1) is Some,
        spec_cache_lookup(cache, t1) == spec_cache_lookup(cache, t2),
{
}

/// What `cache_lookup` returns.
pub open spec fn spec_cache_lookup(cache: AllowedSignersCache, now: u64) -> Option<Seq<u8>> {
    if now <= cache.expiry_timestamp {
        Some(cache.compressed_allowed_signers@)
    } else {
        None
    }
}

} // verus!
