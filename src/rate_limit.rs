//! Per-key token-bucket rate limiting with lazy, continuous refill.
use vstd::prelude::*;
use crate::clock::now_millis;
use crate::tiers::{limits_of, tier_of_text};
pub use crate::tiers::Tier;

verus! {

/// Units of one token: a refill of `n` tokens per minute adds `n` units per millisecond.
pub const TOKEN_UNITS: u64 = 60000;

/// Bursts are never larger than this many tokens.
pub const MAX_BURST: u32 = 1000;

/// Events a minute that a tier may ingest: its limit in the one table of tier limits.
pub open spec fn rate_of(t: Tier) -> u32 {
    limits_of(t).rate_limit_per_minute
}

pub open spec fn lookup_tier(lookup: Option<&str>) -> Tier {
    match lookup {
        Some(name) => tier_of_text(name@),
        None => Tier::Free,
    }
}

/// The tier of a credential from the outcome of looking its organization's tier up: a
/// failed or empty lookup gives the lowest tier, so that a lookup error never blocks
/// ingestion.
pub fn tier_from_lookup(lookup: Option<&str>) -> (r: Tier)
    ensures
        r == lookup_tier(lookup),
{
    match lookup {
        Some(name) => Tier::from_str(name),
        None => Tier::Free,
    }
}

/// Outcome of one rate-limit check.
#[derive(Debug, Clone, Copy, PartialEq, Eq, Structural)]
pub struct RateLimitResult {
    pub allowed: bool,
    /// Whole tokens left after the check.
    pub remaining: u32,
    /// The bucket's capacity.
    pub limit: u32,
    /// Seconds until a token is available, when denied.
    pub retry_after_secs: Option<u32>,
}

/// A token bucket: `units` is the fractional token count times `TOKEN_UNITS`.
#[derive(Debug, Clone, Copy, PartialEq, Eq, Structural)]
pub struct TokenBucket {
    pub capacity: u32,
    pub refill_per_minute: u32,
    pub units: u64,
    pub last_refill_ms: i64,
    pub last_access_ms: i64,
}

/// A full bucket created at time `now`.
pub open spec fn fresh_bucket(capacity: u32, per_minute: u32, now: i64) -> TokenBucket {
    TokenBucket {
        capacity,
        refill_per_minute: per_minute,
        units: (capacity * TOKEN_UNITS) as u64,
        last_refill_ms: now,
        last_access_ms: now,
    }
}

/// Milliseconds from `from` to `to`; none when the clock went back.
pub open spec fn elapsed_ms(from: i64, to: i64) -> int {
    if to > from {
        to - from
    } else {
        0
    }
}

/// Token units after refilling for the time since the last refill, capped at capacity.
pub open spec fn refilled_units(b: TokenBucket, now: i64) -> int {
    let total = b.units + elapsed_ms(b.last_refill_ms, now) * b.refill_per_minute;
    let cap = b.capacity * TOKEN_UNITS;
    if total < cap {
        total
    } else {
        cap
    }
}

/// Seconds until a bucket holding `units` gains a whole token: the ceiling of the missing
/// fraction over the refill rate, at least one; with no refill, the largest value.
pub open spec fn retry_secs(units: int, per_minute: u32) -> u32 {
    if per_minute == 0 {
        u32::MAX
    } else {
        let per_sec = 1000 * per_minute;
        let s = (TOKEN_UNITS - units + per_sec - 1) / per_sec;
        if s < 1 {
            1
        } else {
            s as u32
        }
    }
}

/// The bucket after a consumption attempt at `now`.
pub open spec fn consumed(b: TokenBucket, now: i64) -> TokenBucket {
    let u = refilled_units(b, now);
    TokenBucket {
        units: (if u >= TOKEN_UNITS { u - TOKEN_UNITS } else { u }) as u64,
        last_refill_ms: now,
        last_access_ms: now,
        ..b
    }
}

/// What a consumption attempt at `now` reports.
pub open spec fn consume_result(b: TokenBucket, now: i64) -> RateLimitResult {
    let u = refilled_units(b, now);
    if u >= TOKEN_UNITS {
        RateLimitResult {
            allowed: true,
            remaining: ((u - TOKEN_UNITS) / (TOKEN_UNITS as int)) as u32,
            limit: b.capacity,
            retry_after_secs: None,
        }
    } else {
        RateLimitResult {
            allowed: false,
            remaining: 0,
            limit: b.capacity,
            retry_after_secs: Some(retry_secs(u, b.refill_per_minute)),
        }
    }
}

impl TokenBucket {
    /// A full bucket of `capacity` tokens refilled at `per_minute` tokens a minute, made at `now`.
    pub fn new_at(capacity: u32, per_minute: u32, now: i64) -> (r: TokenBucket)
        ensures
            r == fresh_bucket(capacity, per_minute, now),
    {
        TokenBucket {
            capacity,
            refill_per_minute: per_minute,
            units: capacity as u64 * TOKEN_UNITS,
            last_refill_ms: now,
            last_access_ms: now,
        }
    }

    /// A full bucket made now.
    pub fn new(capacity: u32, per_minute: u32) -> (r: TokenBucket)
        ensures
            exists|now: i64| r == fresh_bucket(capacity, per_minute, now),
    {
        TokenBucket::new_at(capacity, per_minute, now_millis())
    }

    /// Refills for the time elapsed up to `now`, then takes one token if a whole one is there.
    pub fn try_consume_at(&mut self, now: i64) -> (r: RateLimitResult)
        ensures
            r == consume_result(*old(self), now),
            *final(self) == consumed(*old(self), now),
    {
        let elapsed: u128 = if now > self.last_refill_ms {
            (now as i128 - self.last_refill_ms as i128) as u128
        } else {
            0
        };
        proof {
            assert(elapsed * (self.refill_per_minute as u128) <= 0x1_0000_0000_0000_0000 * 0x1_0000_0000)
                by (nonlinear_arith)
                requires
                    elapsed <= 0x1_0000_0000_0000_0000,
                    self.refill_per_minute <= 0xffff_ffff,
            ;
        }
        let total: u128 = self.units as u128 + elapsed * self.refill_per_minute as u128;
        let cap: u128 = self.capacity as u128 * TOKEN_UNITS as u128;
        let units: u64 = if total < cap {
            total as u64
        } else {
            cap as u64
        };
        self.last_refill_ms = now;
        self.last_access_ms = now;
        if units >= TOKEN_UNITS {
            self.units = units - TOKEN_UNITS;
            RateLimitResult {
                allowed: true,
                remaining: (self.units / TOKEN_UNITS) as u32,
                limit: self.capacity,
                retry_after_secs: None,
            }
        } else {
            self.units = units;
            let retry: u32 = if self.refill_per_minute == 0 {
                u32::MAX
            } else {
                let per_sec: u64 = 1000 * self.refill_per_minute as u64;
                let s: u64 = (TOKEN_UNITS - units + per_sec - 1) / per_sec;
                if s < 1 {
                    1
                } else {
                    proof {
                        let num: int = TOKEN_UNITS - units + per_sec - 1;
                        assert(num / (per_sec as int) <= 61) by (nonlinear_arith)
                            requires
                                num <= 60000 + per_sec,
                                per_sec >= 1000,
                        ;
                    }
                    s as u32
                }
            };
            RateLimitResult {
                allowed: false,
                remaining: 0,
                limit: self.capacity,
                retry_after_secs: Some(retry),
            }
        }
    }

    /// One consumption attempt now.
    pub fn try_consume(&mut self) -> (r: RateLimitResult)
        ensures
            exists|now: i64|
                r == consume_result(*old(self), now) && *final(self) == consumed(*old(self), now),
    {
        let now = now_millis();
        self.try_consume_at(now)
    }

    /// Whole tokens held.
    pub fn current_tokens(&self) -> (r: u32)
        requires
            self.units <= self.capacity * TOKEN_UNITS,
        ensures
            r == self.units as int / TOKEN_UNITS as int,
    {
        (self.units / TOKEN_UNITS) as u32
    }

    /// Whole seconds from the last access to `now`; none when the clock went back.
    pub fn seconds_since_last_access_at(&self, now: i64) -> (r: u64)
        ensures
            r == elapsed_ms(self.last_access_ms, now) / 1000,
    {
        if now > self.last_access_ms {
            ((now as i128 - self.last_access_ms as i128) / 1000) as u64
        } else {
            0
        }
    }
}

/// The bucket capacity of a tier: its rate, capped at the burst ceiling.
pub open spec fn burst_of(t: Tier) -> u32 {
    if rate_of(t) < MAX_BURST {
        rate_of(t)
    } else {
        MAX_BURST
    }
}


#[verifier::external_type_specification]
#[verifier::external_body]
#[verifier::reject_recursive_types(K)]
#[verifier::reject_recursive_types(V)]
#[verifier::reject_recursive_types(S)]
pub struct ExDashMap<K, V, S>(dashmap::DashMap<K, V, S>);

/// The buckets that a bucket map holds, by key.
pub uninterp spec fn buckets_of(m: dashmap::DashMap<String, TokenBucket>) -> Map<Seq<char>, TokenBucket>;

/// Relies on `dashmap::DashMap::new`: a new map is empty.
#[verifier::external_body]
fn bucket_map_new() -> (r: dashmap::DashMap<String, TokenBucket>)
    ensures
        buckets_of(r).dom().len() == 0,
        buckets_of(r).dom().finite(),
{
    dashmap::DashMap::new()
}

/// Relies on `dashmap::DashMap::remove`: takes the entry of the key out, if there is one.
#[verifier::external_body]
fn bucket_map_take(m: &mut dashmap::DashMap<String, TokenBucket>, key: &str) -> (r: Option<TokenBucket>)
    ensures
        buckets_of(*final(m)) == buckets_of(*old(m)).remove(key@),
        buckets_of(*final(m)).dom().finite(),
        match r {
            Some(b) => buckets_of(*old(m)).contains_key(key@) && b == buckets_of(*old(m))[key@],
            None => !buckets_of(*old(m)).contains_key(key@),
        },
{
    m.remove(key).map(|entry| entry.1)
}

/// Relies on `dashmap::DashMap::insert`: sets the entry of the key.
#[verifier::external_body]
fn bucket_map_put(m: &mut dashmap::DashMap<String, TokenBucket>, key: String, b: TokenBucket)
    ensures
        buckets_of(*final(m)) == buckets_of(*old(m)).insert(key@, b),
        buckets_of(*final(m)).dom().finite(),
{
    m.insert(key, b);
}

/// Relies on `dashmap::DashMap::len`: the number of entries.
#[verifier::external_body]
fn bucket_map_len(m: &dashmap::DashMap<String, TokenBucket>) -> (r: usize)
    ensures
        r == buckets_of(*m).len(),
{
    m.len()
}

/// Relies on `dashmap::DashMap::iter`: visits every entry once, in no promised order.
#[verifier::external_body]
fn bucket_map_keys(m: &dashmap::DashMap<String, TokenBucket>) -> (r: Vec<String>)
    ensures
        forall|i: int| 0 <= i < r@.len() ==> buckets_of(*m).contains_key(#[trigger] r@[i]@),
        forall|k: Seq<char>| buckets_of(*m).contains_key(k) ==> exists|i: int| 0 <= i < r@.len() && #[trigger] r@[i]@ == k,
        forall|i: int, j: int| 0 <= i < j < r@.len() ==> r@[i]@ != r@[j]@,
{
    m.iter().map(|entry| entry.key().clone()).collect()
}

/// Whether a bucket has gone unused for longer than `max_age_secs` at `now`.
pub open spec fn inactive(b: TokenBucket, now: i64, max_age_secs: u64) -> bool {
    elapsed_ms(b.last_access_ms, now) / 1000 > max_age_secs
}

/// The bucket that a check of `key` at `now` works on: the key's own, or a full one of
/// the tier's burst capacity and rate.
pub open spec fn bucket_for(m: Map<Seq<char>, TokenBucket>, key: Seq<char>, tier: Tier, now: i64) -> TokenBucket {
    if m.contains_key(key) {
        m[key]
    } else {
        fresh_bucket(burst_of(tier), rate_of(tier), now)
    }
}

/// The buckets that stay after a sweep at `now`.
pub open spec fn swept(m: Map<Seq<char>, TokenBucket>, now: i64, max_age_secs: u64) -> Map<Seq<char>, TokenBucket> {
    m.restrict(m.dom().filter(|k: Seq<char>| !inactive(m[k], now, max_age_secs)))
}

/// Token buckets by key, each made on first use with the capacity and rate of the caller's tier.
pub struct RateLimiter {
    buckets: dashmap::DashMap<String, TokenBucket>,
}

impl RateLimiter {
    pub closed spec fn view(&self) -> Map<Seq<char>, TokenBucket> {
        buckets_of(self.buckets)
    }

    pub fn new() -> (r: RateLimiter)
        ensures
            r.view().dom().len() == 0,
            r.view().dom().finite(),
    {
        RateLimiter { buckets: bucket_map_new() }
    }

    /// Checks and charges one request of `key` at `now`: the key's bucket, or a full one of
    /// the tier's burst capacity and rate when the key has none, takes one token if it can.
    pub fn check_at(&mut self, key: &str, tier: Tier, now: i64) -> (r: RateLimitResult)
        ensures
            r == consume_result(bucket_for(old(self).view(), key@, tier, now), now),
            final(self).view() == old(self).view().insert(key@, consumed(bucket_for(old(self).view(), key@, tier, now), now)),
            final(self).view().dom().finite(),
    {
        let rate = tier.rate_limit();
        let capacity = if rate < MAX_BURST { rate } else { MAX_BURST };
        let mut bucket = match bucket_map_take(&mut self.buckets, key) {
            Some(b) => b,
            None => TokenBucket::new_at(capacity, rate, now),
        };
        let r = bucket.try_consume_at(now);
        bucket_map_put(&mut self.buckets, key.to_string(), bucket);
        proof {
            assert(buckets_of(self.buckets) =~= old(self).view().insert(key@, bucket));
        }
        r
    }

    /// Checks and charges one request of `key` now.
    pub fn check(&mut self, key: &str, tier: Tier) -> (r: RateLimitResult)
        ensures
            exists|now: i64| {
                &&& r == consume_result(#[trigger] bucket_for(old(self).view(), key@, tier, now), now)
                &&& final(self).view() == old(self).view().insert(key@, consumed(bucket_for(old(self).view(), key@, tier, now), now))
            },
            final(self).view().dom().finite(),
    {
        let now = now_millis();
        self.check_at(key, tier, now)
    }

    /// Checks and charges one request of `key` now, under the tier that the lookup of its
    /// organization gave (the lowest tier when the lookup failed).
    pub fn check_with_tier_lookup(&mut self, key: &str, lookup: Option<&str>) -> (r: RateLimitResult)
        ensures
            exists|now: i64| {
                &&& r == consume_result(#[trigger] bucket_for(old(self).view(), key@, lookup_tier(lookup), now), now)
                &&& final(self).view() == old(self).view().insert(
                    key@,
                    consumed(bucket_for(old(self).view(), key@, lookup_tier(lookup), now), now),
                )
            },
            final(self).view().dom().finite(),
    {
        let tier = tier_from_lookup(lookup);
        self.check(key, tier)
    }

    /// Removes the buckets unused for longer than `max_age_secs` at `now`, and returns
    /// how many it removed.
    pub fn cleanup_inactive_at(&mut self, max_age_secs: u64, now: i64) -> (r: usize)
        ensures
            final(self).view() == swept(old(self).view(), now, max_age_secs),
            final(self).view().dom().finite(),
            forall|k: Seq<char>| #[trigger] final(self).view().contains_key(k) <==> (
                old(self).view().contains_key(k) && !inactive(old(self).view()[k], now, max_age_secs)),
            forall|k: Seq<char>| #[trigger] final(self).view().contains_key(k) ==> final(self).view()[k] == old(self).view()[k],
            r == old(self).view().dom().filter(|k: Seq<char>| inactive(old(self).view()[k], now, max_age_secs)).len(),
    {
        let keys = bucket_map_keys(&self.buckets);
        let ghost start = self.view();
        let ghost removed_set: Set<Seq<char>> = Set::empty();
        let mut removed: usize = 0;
        let mut i: usize = 0;
        while i < keys.len()
            invariant
                0 <= i <= keys@.len(),
                forall|j: int| 0 <= j < keys@.len() ==> start.contains_key(#[trigger] keys@[j]@),
                forall|k: Seq<char>| start.contains_key(k) ==> exists|j: int| 0 <= j < keys@.len() && #[trigger] keys@[j]@ == k,
                forall|a: int, b: int| 0 <= a < b < keys@.len() ==> keys@[a]@ != keys@[b]@,
                forall|k: Seq<char>| #[trigger] self.view().contains_key(k) <==> (start.contains_key(k) && !(
                    removed_set.contains(k))),
                forall|k: Seq<char>| #[trigger] self.view().contains_key(k) ==> self.view()[k] == start[k],
                removed_set == Set::new(|k: Seq<char>| exists|j: int| 0 <= j < i && #[trigger] keys@[j]@ == k && inactive(start[k], now, max_age_secs)),
                removed_set.finite(),
                removed == removed_set.len(),
                removed <= i,
                i > 0 ==> self.view().dom().finite(),
            decreases keys@.len() - i,
        {
            let key = &keys[i];
            let ghost before = removed_set;
            let ghost view_before = self.view();
            proof {
                if removed_set.contains(key@) {
                    let j = choose|j: int| 0 <= j < i && #[trigger] keys@[j]@ == key@ && inactive(start[key@], now, max_age_secs);
                    assert(keys@[j]@ == keys@[i as int]@);
                }
                assert(self.view().contains_key(key@));
            }
            let taken = bucket_map_take(&mut self.buckets, key.as_str());
            match taken {
                Some(b) => {
                    if b.seconds_since_last_access_at(now) > max_age_secs {
                        proof {
                            removed_set = removed_set.insert(key@);
                        }
                        removed += 1;
                    } else {
                        bucket_map_put(&mut self.buckets, key.clone(), b);
                    }
                },
                None => {},
            }
            proof {
                assert forall|k: Seq<char>| #[trigger] self.view().contains_key(k) <==> (start.contains_key(k) && !(
                    removed_set.contains(k))) by {
                    if k != key@ {
                        assert(self.view().contains_key(k) == view_before.contains_key(k));
                        assert(removed_set.contains(k) == before.contains(k));
                    }
                }
            }
            i += 1;
            proof {
                let target = Set::new(|k: Seq<char>| exists|j: int| 0 <= j < i && #[trigger] keys@[j]@ == k && inactive(start[k], now, max_age_secs));
                assert forall|k: Seq<char>| removed_set.contains(k) <==> target.contains(k) by {
                    if target.contains(k) {
                        let j = choose|j: int| 0 <= j < i && #[trigger] keys@[j]@ == k && inactive(start[k], now, max_age_secs);
                        if j < i - 1 {
                            assert(before.contains(k));
                        }
                    }
                    if before.contains(k) {
                        let j = choose|j: int| 0 <= j < i - 1 && #[trigger] keys@[j]@ == k && inactive(start[k], now, max_age_secs);
                        assert(target.contains(k));
                    }
                }
                assert(removed_set =~= target);
            }
        }
        proof {
            assert(removed_set =~= start.dom().filter(|k: Seq<char>| inactive(start[k], now, max_age_secs)));
            assert(self.view() =~= swept(start, now, max_age_secs));
            if i == 0 {
                assert(self.view().dom() =~= Set::<Seq<char>>::empty());
            }
        }
        removed
    }

    /// Removes the buckets unused for longer than `max_age_secs` now.
    pub fn cleanup_inactive(&mut self, max_age_secs: u64) -> (r: usize)
        ensures
            exists|now: i64|
                {
                    &&& final(self).view() == #[trigger] swept(old(self).view(), now, max_age_secs)
                    &&& r == old(self).view().dom().filter(|k: Seq<char>| inactive(old(self).view()[k], now, max_age_secs)).len()
                },
            final(self).view().dom().finite(),
    {
        let now = now_millis();
        self.cleanup_inactive_at(max_age_secs, now)
    }

    /// The number of keys that have a bucket.
    pub fn bucket_count(&self) -> (r: usize)
        ensures
            r == self.view().len(),
    {
        bucket_map_len(&self.buckets)
    }
}

/// The bucket after `n` consumption attempts, all at time `now`.
pub open spec fn consumed_n(b: TokenBucket, now: i64, n: nat) -> TokenBucket
    decreases n,
{
    if n == 0 {
        b
    } else {
        consumed(consumed_n(b, now, (n - 1) as nat), now)
    }
}

proof fn lemma_drain(capacity: u32, per_minute: u32, now: i64, k: nat)
    requires
        k <= capacity,
    ensures
        consumed_n(fresh_bucket(capacity, per_minute, now), now, k).units == (capacity - k) * TOKEN_UNITS,
        consumed_n(fresh_bucket(capacity, per_minute, now), now, k).last_refill_ms == now,
        consumed_n(fresh_bucket(capacity, per_minute, now), now, k).capacity == capacity,
        consumed_n(fresh_bucket(capacity, per_minute, now), now, k).refill_per_minute == per_minute,
    decreases k,
{
    if k > 0 {
        lemma_drain(capacity, per_minute, now, (k - 1) as nat);
        assert((capacity - (k - 1)) * TOKEN_UNITS - TOKEN_UNITS == (capacity - k) * TOKEN_UNITS) by (nonlinear_arith);
        assert((capacity - (k - 1)) * TOKEN_UNITS >= TOKEN_UNITS) by (nonlinear_arith)
            requires k <= capacity;
    }
}

/// A full bucket of capacity `capacity` grants exactly `capacity` requests made at one
/// instant, and denies the next with a retry delay of at least one second.
pub proof fn lemma_bucket_capacity(capacity: u32, per_minute: u32, now: i64)
    requires
        capacity >= 1,
    ensures
        forall|k: nat| k < capacity ==> #[trigger] consume_result(
            consumed_n(fresh_bucket(capacity, per_minute, now), now, k), now).allowed,
        !consume_result(consumed_n(fresh_bucket(capacity, per_minute, now), now, capacity as nat), now).allowed,
        consume_result(consumed_n(fresh_bucket(capacity, per_minute, now), now, capacity as nat), now).remaining == 0,
        consume_result(consumed_n(fresh_bucket(capacity, per_minute, now), now, capacity as nat), now).retry_after_secs
            matches Some(secs) && secs >= 1,
{
    let b = fresh_bucket(capacity, per_minute, now);
    assert forall|k: nat| k < capacity implies #[trigger] consume_result(consumed_n(b, now, k), now).allowed by {
        lemma_drain(capacity, per_minute, now, k);
        assert((capacity - k) * TOKEN_UNITS >= TOKEN_UNITS) by (nonlinear_arith)
            requires k < capacity;
    }
    lemma_drain(capacity, per_minute, now, capacity as nat);
    let empty = consumed_n(b, now, capacity as nat);
    assert(empty.units == 0);
    assert(refilled_units(empty, now) == 0);
    if per_minute > 0 {
        let per_sec: int = 1000 * per_minute;
        assert((TOKEN_UNITS + per_sec - 1) / per_sec <= 61) by (nonlinear_arith)
            requires per_sec >= 1000;
    }
}

/// After the denial that follows `capacity` grants at one instant, a request made once one
/// token's worth of refill time has passed (`1 / rate`) is granted again.
pub proof fn lemma_bucket_refills(capacity: u32, per_minute: u32, now: i64, later: i64)
    requires
        capacity >= 1,
        later >= now,
        (later - now) * per_minute >= TOKEN_UNITS,
    ensures
        consume_result(consumed_n(fresh_bucket(capacity, per_minute, now), now, (capacity + 1) as nat), later).allowed,
{
    let b = fresh_bucket(capacity, per_minute, now);
    lemma_drain(capacity, per_minute, now, capacity as nat);
    let empty = consumed_n(b, now, capacity as nat);
    assert(empty.units == 0);
    assert(refilled_units(empty, now) == 0);
    let denied = consumed_n(b, now, (capacity + 1) as nat);
    assert(denied.units == 0);
    assert(denied.last_refill_ms == now);
    assert(capacity * TOKEN_UNITS >= TOKEN_UNITS) by (nonlinear_arith)
        requires capacity >= 1;
    assert(refilled_units(denied, later) >= TOKEN_UNITS);
}

} // verus!
