//! Per-identity rate limiting of the allowed-signers endpoint.
//!
//! The limiter is a bounded LRU map from identity to the next time a
//! request may be served, held by the `lru` crate. Its contents are
//! modelled as a finite map; each push refreshes the identity's deadline,
//! even when the caller is denied, which holds a sustained caller at the
//! cooldown floor.

use vstd::prelude::*;

verus! {

#[verifier::external_type_specification]
#[verifier::external_body]
#[verifier::reject_recursive_types(K)]
#[verifier::reject_recursive_types(V)]
#[verifier::reject_recursive_types(S)]
pub struct ExLruCache<K, V, S>(lru::LruCache<K, V, S>);

/// What the rate-limiter LRU holds: identity bytes to the next allowed
/// time, UNIX seconds.
pub uninterp spec fn spec_limiter_entries(m: lru::LruCache<Vec<u8>, u64>) -> Map<Seq<u8>, u64>;

/// The capacity the rate-limiter LRU was created with.
pub uninterp spec fn spec_limiter_capacity(m: lru::LruCache<Vec<u8>, u64>) -> nat;

/// Relies on `lru::LruCache::new`: an empty cache of the given capacity.
#[verifier::external_body]
pub(crate) fn limiter_new(capacity: usize) -> (r: lru::LruCache<Vec<u8>, u64>)
    requires
        capacity >= 1,
    ensures
        (spec_limiter_entries(r) == Map::<Seq<u8>, u64>::empty()),
        spec_limiter_capacity(r) == capacity,
{
    lru::LruCache::new(core::num::NonZeroUsize::new(capacity).unwrap())
}

/// Relies on `lru::LruCache::push`: inserts `(k, v)`. If `k` was present,
/// its old entry is returned and only its value changes; otherwise, if the
/// cache is at capacity, the least-recently-used entry of some other key
/// is evicted and returned; below capacity the pair is simply added. The
/// entry count never exceeds the capacity.
#[verifier::external_body]
pub(crate) fn limiter_push(m: &mut lru::LruCache<Vec<u8>, u64>, k: &Vec<u8>, v: u64) -> (r: Option<
    (Vec<u8>, u64),
>)
    ensures
        spec_limiter_capacity(*final(m)) == spec_limiter_capacity(*old(m)),
        spec_limiter_entries(*old(m)).dom().finite() ==> spec_limiter_entries(
            *final(m),
        ).dom().finite(),
        spec_limiter_entries(*old(m)).contains_key(k@) ==> {
            &&& r matches Some(p) && p.0@ == k@ && p.1 == spec_limiter_entries(*old(m))[k@]
            &&& spec_limiter_entries(*final(m)) == spec_limiter_entries(*old(m)).insert(k@, v)
        },
        !spec_limiter_entries(*old(m)).contains_key(k@) ==> {
            ||| (r is None && spec_limiter_entries(*final(m)) == spec_limiter_entries(
                *old(m),
            ).insert(k@, v))
            ||| (r matches Some(p) && p.0@ != k@ && spec_limiter_entries(*old(m)).contains_pair(
                p.0@,
                p.1,
            ) && spec_limiter_entries(*final(m)) == spec_limiter_entries(*old(m)).remove(
                p.0@,
            ).insert(k@, v))
        },
        (!spec_limiter_entries(*old(m)).contains_key(k@) && spec_limiter_entries(
            *old(m),
        ).dom().finite() && spec_limiter_entries(*old(m)).dom().len() >= spec_limiter_capacity(
            *old(m),
        )) ==> r is Some,
        (spec_limiter_entries(*old(m)).dom().finite() && spec_limiter_entries(*old(m)).dom().len()
            <= spec_limiter_capacity(*old(m))) ==> spec_limiter_entries(*final(m)).dom().len()
            <= spec_limiter_capacity(*old(m)),
{
    m.push(k.clone(), v)
}

/// Checks and refreshes the rate limit for one identity: pushes
/// `now + cooldown` as the identity's next allowed time and reports the
/// caller rate-limited exactly when the identity was already present with
/// a deadline still in the future. A capacity eviction of another identity
/// never counts as rate-limited.
pub fn is_rate_limited(
    limiter: &mut lru::LruCache<Vec<u8>, u64>,
    identity: &Vec<u8>,
    current_time: u64,
    cooldown: u64,
) -> (r: bool)
    requires
        current_time + cooldown <= u64::MAX,
    ensures
        r <==> (spec_limiter_entries(*old(limiter)).contains_key(identity@) && current_time
            < spec_limiter_entries(*old(limiter))[identity@]),
        spec_limiter_entries(*final(limiter)).contains_pair(
            identity@,
            (current_time + cooldown) as u64,
        ),
        spec_limiter_capacity(*final(limiter)) == spec_limiter_capacity(*old(limiter)),
        spec_limiter_entries(*old(limiter)).dom().finite() ==> spec_limiter_entries(
            *final(limiter),
        ).dom().finite(),
        (spec_limiter_entries(*old(limiter)).dom().finite() && spec_limiter_entries(
            *old(limiter),
        ).dom().len() <= spec_limiter_capacity(*old(limiter))) ==> spec_limiter_entries(
            *final(limiter),
        ).dom().len() <= spec_limiter_capacity(*old(limiter)),
{
    let removed = limiter_push(limiter, identity, current_time + cooldown);
    let removed_entry = match removed {
        Some(p) => p,
        // The identity was not in the cache.
        None => {
            return false;
        },
    };
    // A capacity eviction of an unrelated entry does not limit the caller.
    if !(removed_entry.0 == *identity) {
        return false;
    }
    assert(removed_entry.0@ =~= identity@);
    // The returned entry is the identity's previous deadline.
    current_time < removed_entry.1
}

/// Two calls for one identity that are both served (not rate-limited) lie
/// at least one cooldown apart, unless the identity's entry left the LRU
/// between them: if the limiter still holds the deadline the first call
/// wrote, a second call at `t2` is served only once `t2` has reached it.
pub proof fn lemma_rate_limit_spacing(
    state: lru::LruCache<Vec<u8>, u64>,
    identity: Seq<u8>,
    t1: u64,
    t2: u64,
    cooldown: u64,
)
    requires
        t1 + cooldown <= u64::MAX,
        // What the first served call left behind, still present:
        spec_limiter_entries(state).contains_pair(identity, (t1 + cooldown) as u64),
        // The second call is served:
        !(spec_limiter_entries(state).contains_key(identity) && t2 < spec_limiter_entries(
            state,
        )[identity]),
    ensures
        t2 >= t1 + cooldown,
{
}

} // verus!
