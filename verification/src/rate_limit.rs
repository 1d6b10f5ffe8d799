//! Per-client admission control: one lazily refilled token bucket per
//! client key, and a sweep that forgets clients idle for too long.
//!
//! Time is a count of milliseconds handed in by the caller. A bucket keeps
//! its balance in credits, `CREDITS_PER_TOKEN` to the token, so that a
//! bucket of `n` requests per minute earns exactly `n` credits per
//! millisecond and no fraction is ever rounded away.

use vstd::prelude::*;
use vstd::hash_map::StringHashMap;

verus! {

/// Credits that make one token: the milliseconds of a minute.
pub const CREDITS_PER_TOKEN: u64 = 60_000;

/// A bucket untouched for this many milliseconds is dropped by a sweep.
pub const IDLE_LIMIT_MS: u64 = 300_000;

/// Milliseconds from `last` to `now`; none if the clock reads earlier.
pub open spec fn elapsed_ms(last: u64, now: u64) -> int {
    if now >= last {
        now - last
    } else {
        0
    }
}

/// The balance of one client.
#[derive(Debug, Clone, Copy)]
pub struct TokenBucket {
    pub credit: u64,
    pub capacity: u32,
    pub last_refill: u64,
}

impl TokenBucket {
    /// The balance never exceeds the capacity.
    pub open spec fn wf(&self) -> bool {
        self.credit <= self.capacity * CREDITS_PER_TOKEN
    }

    /// A full bucket for `requests_per_minute`, made at `now_ms`.
    pub open spec fn full(requests_per_minute: u32, now_ms: u64) -> TokenBucket {
        TokenBucket {
            credit: (requests_per_minute * CREDITS_PER_TOKEN) as u64,
            capacity: requests_per_minute,
            last_refill: now_ms,
        }
    }

    /// The balance once the time up to `now_ms` is credited, capped at capacity.
    pub open spec fn refilled_credit(&self, now_ms: u64) -> int {
        let earned = self.credit + elapsed_ms(self.last_refill, now_ms) * self.capacity;
        if earned <= self.capacity * CREDITS_PER_TOKEN {
            earned
        } else {
            self.capacity * CREDITS_PER_TOKEN
        }
    }

    /// Whether a request at `now_ms` is let through.
    pub open spec fn admits(&self, now_ms: u64) -> bool {
        self.refilled_credit(now_ms) >= CREDITS_PER_TOKEN
    }

    /// The bucket after a request at `now_ms`, let through or not.
    pub open spec fn after_request(&self, now_ms: u64) -> TokenBucket {
        TokenBucket {
            credit: (if self.admits(now_ms) {
                self.refilled_credit(now_ms) - CREDITS_PER_TOKEN
            } else {
                self.refilled_credit(now_ms)
            }) as u64,
            capacity: self.capacity,
            last_refill: now_ms,
        }
    }

    /// Whether a sweep at `now_ms` keeps this bucket.
    pub open spec fn is_fresh(&self, now_ms: u64) -> bool {
        elapsed_ms(self.last_refill, now_ms) < IDLE_LIMIT_MS
    }

    pub fn new(requests_per_minute: u32, now_ms: u64) -> (b: Self)
        ensures
            b == Self::full(requests_per_minute, now_ms),
            b.wf(),
    {
        let capacity: u64 = requests_per_minute as u64;
        assert(capacity * CREDITS_PER_TOKEN <= 0xffff_ffff * 60_000) by (nonlinear_arith)
            requires
                capacity <= 0xffff_ffff,
                CREDITS_PER_TOKEN == 60_000,
        ;
        TokenBucket {
            credit: capacity * CREDITS_PER_TOKEN,
            capacity: requests_per_minute,
            last_refill: now_ms,
        }
    }

    /// Credits the time since the last refill, up to capacity.
    pub fn refill(&mut self, now_ms: u64)
        requires
            old(self).wf(),
        ensures
            final(self).credit == old(self).refilled_credit(now_ms),
            final(self).capacity == old(self).capacity,
            final(self).last_refill == now_ms,
            final(self).wf(),
    {
        let elapsed: u64 = if now_ms >= self.last_refill {
            now_ms - self.last_refill
        } else {
            0
        };
        let capacity: u64 = self.capacity as u64;
        assert(capacity * CREDITS_PER_TOKEN <= 0xffff_ffff * 60_000) by (nonlinear_arith)
            requires
                capacity <= 0xffff_ffff,
                CREDITS_PER_TOKEN == 60_000,
        ;
        let limit: u64 = capacity * CREDITS_PER_TOKEN;
        if elapsed >= CREDITS_PER_TOKEN {
            assert(elapsed * capacity >= limit) by (nonlinear_arith)
                requires
                    elapsed >= CREDITS_PER_TOKEN,
                    limit == capacity * CREDITS_PER_TOKEN,
            ;
            self.credit = limit;
        } else {
            assert(elapsed * capacity <= limit) by (nonlinear_arith)
                requires
                    elapsed < CREDITS_PER_TOKEN,
                    limit == capacity * CREDITS_PER_TOKEN,
            ;
            let earned: u64 = self.credit + elapsed * capacity;
            self.credit = if earned <= limit {
                earned
            } else {
                limit
            };
        }
        self.last_refill = now_ms;
    }

    /// Refills, then spends one token if there is one.
    pub fn try_consume(&mut self, now_ms: u64) -> (allowed: bool)
        requires
            old(self).wf(),
        ensures
            allowed == old(self).admits(now_ms),
            *final(self) == old(self).after_request(now_ms),
            final(self).wf(),
    {
        self.refill(now_ms);
        if self.credit >= CREDITS_PER_TOKEN {
            self.credit = self.credit - CREDITS_PER_TOKEN;
            true
        } else {
            false
        }
    }
}

/// The bucket after `n` requests that all arrive at `now_ms`.
pub open spec fn after_burst(b: TokenBucket, now_ms: u64, n: nat) -> TokenBucket
    decreases n,
{
    if n == 0 {
        b
    } else {
        after_burst(b, now_ms, (n - 1) as nat).after_request(now_ms)
    }
}

/// A full bucket lets through exactly as many immediate requests as its
/// capacity: after `n` of them, with `n` no more than the capacity, it holds
/// the remaining tokens, and it admits the next one only if a token remains.
pub proof fn lemma_burst_spends_capacity(requests_per_minute: u32, now_ms: u64, n: nat)
    requires
        n <= requests_per_minute,
    ensures
        after_burst(TokenBucket::full(requests_per_minute, now_ms), now_ms, n).credit == (
        requests_per_minute - n) * CREDITS_PER_TOKEN,
        after_burst(TokenBucket::full(requests_per_minute, now_ms), now_ms, n).capacity
            == requests_per_minute,
        after_burst(TokenBucket::full(requests_per_minute, now_ms), now_ms, n).last_refill
            == now_ms,
        after_burst(TokenBucket::full(requests_per_minute, now_ms), now_ms, n).admits(now_ms) <==> n
            < requests_per_minute,
    decreases n,
{
    let full = TokenBucket::full(requests_per_minute, now_ms);
    assert(requests_per_minute * CREDITS_PER_TOKEN <= 0xffff_ffff * 60_000) by (nonlinear_arith)
        requires
            requests_per_minute <= 0xffff_ffff,
            CREDITS_PER_TOKEN == 60_000,
    ;
    if n > 0 {
        lemma_burst_spends_capacity(requests_per_minute, now_ms, (n - 1) as nat);
        let before = after_burst(full, now_ms, (n - 1) as nat);
        assert((requests_per_minute - (n - 1)) * CREDITS_PER_TOKEN == (requests_per_minute - n)
            * CREDITS_PER_TOKEN + CREDITS_PER_TOKEN) by (nonlinear_arith);
        assert((requests_per_minute - n) * CREDITS_PER_TOKEN >= 0) by (nonlinear_arith)
            requires
                n <= requests_per_minute,
                CREDITS_PER_TOKEN == 60_000,
        ;
        assert(before.refilled_credit(now_ms) == before.credit);
    }
    let b = after_burst(full, now_ms, n);
    assert(b.refilled_credit(now_ms) == b.credit);
    assert((requests_per_minute - n) * CREDITS_PER_TOKEN >= CREDITS_PER_TOKEN <==> n
        < requests_per_minute) by (nonlinear_arith)
        requires
            n <= requests_per_minute,
            CREDITS_PER_TOKEN == 60_000,
    ;
}

/// An empty bucket admits a request again exactly when one token's worth
/// of time has passed: a minute divided by the capacity.
pub proof fn lemma_empty_bucket_recovers(b: TokenBucket, now_ms: u64)
    requires
        b.credit == 0,
        b.capacity > 0,
    ensures
        b.admits(now_ms) <==> elapsed_ms(b.last_refill, now_ms) * b.capacity >= CREDITS_PER_TOKEN,
{
    assert(b.capacity * CREDITS_PER_TOKEN >= CREDITS_PER_TOKEN) by (nonlinear_arith)
        requires
            b.capacity > 0,
            CREDITS_PER_TOKEN == 60_000,
    ;
}

/// Whether some entry of `keys` reads `key`.
pub open spec fn has_key(keys: Seq<String>, key: Seq<char>) -> bool {
    exists|i: int| 0 <= i < keys.len() && keys[i]@ == key
}

/// No key stands twice.
pub open spec fn distinct_keys(keys: Seq<String>) -> bool {
    forall|i: int, j: int| 0 <= i < j < keys.len() ==> keys[i]@ != keys[j]@
}

/// What a sweep at `now_ms` leaves of a table: the buckets still fresh.
pub open spec fn swept(table: Map<Seq<char>, TokenBucket>, now_ms: u64) -> Map<
    Seq<char>,
    TokenBucket,
> {
    Map::new(
        |k: Seq<char>| table.contains_key(k) && table[k].is_fresh(now_ms),
        |k: Seq<char>| table[k],
    )
}

proof fn lemma_has_key_push(keys: Seq<String>, key: String, k: Seq<char>)
    ensures
        has_key(keys.push(key), k) <==> (k == key@ || has_key(keys, k)),
{
    let longer = keys.push(key);
    if has_key(longer, k) {
        let j = choose|j: int| 0 <= j < longer.len() && longer[j]@ == k;
        if j < keys.len() {
            assert(keys[j]@ == k);
        }
    }
    if has_key(keys, k) {
        let j = choose|j: int| 0 <= j < keys.len() && keys[j]@ == k;
        assert(longer[j]@ == k);
    }
    if k == key@ {
        assert(longer[keys.len() as int]@ == k);
    }
}

proof fn lemma_distinct_push(keys: Seq<String>, key: String)
    requires
        distinct_keys(keys),
        !has_key(keys, key@),
    ensures
        distinct_keys(keys.push(key)),
{
    let longer = keys.push(key);
    assert forall|a: int, b: int| 0 <= a < b < longer.len() implies longer[a]@ != longer[b]@ by {
        assert(longer[a]@ == keys[a]@);
        if b < keys.len() {
            assert(longer[b]@ == keys[b]@);
        }
    }
}

/// The limiter: the configured quota and one bucket per client seen.
pub struct RateLimitLayer {
    requests_per_minute: u32,
    buckets: StringHashMap<TokenBucket>,
    clients: Vec<String>,
}

impl View for RateLimitLayer {
    type V = Map<Seq<char>, TokenBucket>;

    closed spec fn view(&self) -> Map<Seq<char>, TokenBucket> {
        self.buckets@
    }
}

impl RateLimitLayer {
    /// The quota that every new bucket starts with.
    pub closed spec fn limit(&self) -> u32 {
        self.requests_per_minute
    }

    /// The list of clients names each bucket's client once, and every
    /// bucket is within its capacity.
    pub closed spec fn wf(&self) -> bool {
        &&& distinct_keys(self.clients@)
        &&& forall|k: Seq<char>| self.buckets@.contains_key(k) <==> has_key(self.clients@, k)
        &&& forall|k: Seq<char>| self.buckets@.contains_key(k) ==> (#[trigger] self.buckets@[k]).wf()
    }

    /// Every bucket of a well-formed limiter is within its capacity.
    pub proof fn lemma_buckets_within_capacity(&self, key: Seq<char>)
        requires
            self.wf(),
            self@.contains_key(key),
        ensures
            self@[key].wf(),
    {
    }

    pub fn new(requests_per_minute: u32) -> (layer: Self)
        ensures
            layer.wf(),
            layer.limit() == requests_per_minute,
            layer@ == Map::<Seq<char>, TokenBucket>::empty(),
    {
        RateLimitLayer { requests_per_minute, buckets: StringHashMap::new(), clients: Vec::new() }
    }

    /// Whether the client `key` has a bucket.
    pub fn knows(&self, key: &str) -> (known: bool)
        ensures
            known == self@.contains_key(key@),
    {
        self.buckets.contains_key(key)
    }

    fn bucket_of(&self, key: &str) -> (r: Option<TokenBucket>)
        ensures
            r is Some <==> self@.contains_key(key@),
            r is Some ==> r->Some_0 == self@[key@],
    {
        match self.buckets.get(key) {
            Some(bucket) => Some(*bucket),
            None => None,
        }
    }

    /// Decides one request of the client `key` at `now_ms`. A client seen
    /// for the first time gets a full bucket; then the bucket is refilled
    /// for the time passed and one token is spent if there is one.
    pub fn allow(&mut self, key: &str, now_ms: u64) -> (allowed: bool)
        requires
            old(self).wf(),
        ensures
            final(self).wf(),
            final(self).limit() == old(self).limit(),
            ({
                let before = if old(self)@.contains_key(key@) {
                    old(self)@[key@]
                } else {
                    TokenBucket::full(old(self).limit(), now_ms)
                };
                &&& allowed == before.admits(now_ms)
                &&& final(self)@ == old(self)@.insert(key@, before.after_request(now_ms))
            }),
    {
        let ghost before_map = self.buckets@;
        let ghost before_clients = self.clients@;
        match self.bucket_of(key) {
            Some(known) => {
                let mut bucket = known;
                let allowed = bucket.try_consume(now_ms);
                self.buckets.insert(key.to_owned(), bucket);
                proof {
                    let after_map = self.buckets@;
                    assert forall|k: Seq<char>| after_map.contains_key(k) <==> has_key(
                        before_clients,
                        k,
                    ) by {
                        assert(after_map.contains_key(k) <==> (k == key@ || before_map.contains_key(
                            k,
                        )));
                    }
                    assert forall|k: Seq<char>| after_map.contains_key(k) implies (
                    #[trigger] after_map[k]).wf() by {
                        if k != key@ {
                            assert(before_map.contains_key(k));
                            assert(after_map[k] == before_map[k]);
                        }
                    }
                }
                allowed
            },
            None => {
                let mut bucket = TokenBucket::new(self.requests_per_minute, now_ms);
                let allowed = bucket.try_consume(now_ms);
                let client = key.to_owned();
                let ghost name = client;
                proof {
                    lemma_distinct_push(before_clients, client);
                }
                self.buckets.insert(key.to_owned(), bucket);
                self.clients.push(client);
                proof {
                    let after_map = self.buckets@;
                    assert forall|k: Seq<char>| after_map.contains_key(k) <==> has_key(
                        self.clients@,
                        k,
                    ) by {
                        lemma_has_key_push(before_clients, name, k);
                        assert(after_map.contains_key(k) <==> (k == key@ || before_map.contains_key(
                            k,
                        )));
                    }
                    assert forall|k: Seq<char>| after_map.contains_key(k) implies (
                    #[trigger] after_map[k]).wf() by {
                        if k != key@ {
                            assert(before_map.contains_key(k));
                            assert(after_map[k] == before_map[k]);
                        }
                    }
                }
                allowed
            },
        }
    }

    /// Forgets every client whose bucket was last touched `IDLE_LIMIT_MS`
    /// or more before `now_ms`.
    pub fn sweep(&mut self, now_ms: u64)
        requires
            old(self).wf(),
        ensures
            final(self).wf(),
            final(self).limit() == old(self).limit(),
            final(self)@ == swept(old(self)@, now_ms),
    {
        let mut kept: StringHashMap<TokenBucket> = StringHashMap::new();
        let mut kept_clients: Vec<String> = Vec::new();
        let mut i: usize = 0;
        while i < self.clients.len()
            invariant
                self.wf(),
                i <= self.clients@.len(),
                distinct_keys(kept_clients@),
                forall|k: Seq<char>| kept@.contains_key(k) <==> has_key(kept_clients@, k),
                forall|k: Seq<char>|
                    kept@.contains_key(k) <==> has_key(self.clients@.subrange(0, i as int), k)
                        && self.buckets@.contains_key(k) && self.buckets@[k].is_fresh(now_ms),
                forall|k: Seq<char>|
                    kept@.contains_key(k) ==> self.buckets@.contains_key(k) && kept@[k]
                        == self.buckets@[k],
            decreases self.clients@.len() - i,
        {
            let ghost seen = self.clients@.subrange(0, i as int);
            let ghost current = self.clients@[i as int]@;
            let ghost kept_before = kept@;
            let ghost names_before = kept_clients@;
            proof {
                assert(self.clients@.subrange(0, i + 1) =~= seen.push(self.clients@[i as int]));
                assert(has_key(self.clients@, current));
                assert(!has_key(seen, current)) by {
                    if has_key(seen, current) {
                        let j = choose|j: int| 0 <= j < seen.len() && seen[j]@ == current;
                        assert(self.clients@[j]@ == self.clients@[i as int]@);
                    }
                }
                assert(!kept_before.contains_key(current));
            }
            let found = self.bucket_of(self.clients[i].as_str());
            assert(found is Some);
            let bucket = found.unwrap();
            let idle: u64 = if now_ms >= bucket.last_refill {
                now_ms - bucket.last_refill
            } else {
                0
            };
            if idle < IDLE_LIMIT_MS {
                let client = self.clients[i].clone();
                let ghost name = client;
                proof {
                    lemma_distinct_push(names_before, client);
                }
                kept.insert(self.clients[i].clone(), bucket);
                kept_clients.push(client);
                proof {
                    assert forall|k: Seq<char>| kept@.contains_key(k) <==> has_key(
                        kept_clients@,
                        k,
                    ) by {
                        lemma_has_key_push(names_before, name, k);
                        assert(kept@.contains_key(k) <==> (k == current || kept_before.contains_key(
                            k,
                        )));
                    }
                    assert forall|k: Seq<char>| kept@.contains_key(k) <==> has_key(
                        self.clients@.subrange(0, i + 1),
                        k,
                    ) && self.buckets@.contains_key(k) && self.buckets@[k].is_fresh(now_ms) by {
                        lemma_has_key_push(seen, self.clients@[i as int], k);
                        assert(kept@.contains_key(k) <==> (k == current || kept_before.contains_key(
                            k,
                        )));
                    }
                    assert forall|k: Seq<char>| kept@.contains_key(k) implies self.buckets@.contains_key(
                        k,
                    ) && kept@[k] == self.buckets@[k] by {
                        if k != current {
                            assert(kept_before.contains_key(k));
                        }
                    }
                }
            } else {
                proof {
                    assert forall|k: Seq<char>| kept@.contains_key(k) <==> has_key(
                        self.clients@.subrange(0, i + 1),
                        k,
                    ) && self.buckets@.contains_key(k) && self.buckets@[k].is_fresh(now_ms) by {
                        lemma_has_key_push(seen, self.clients@[i as int], k);
                    }
                }
            }
            i += 1;
        }
        proof {
            assert(self.clients@.subrange(0, i as int) =~= self.clients@);
            assert(kept@ =~= swept(self.buckets@, now_ms));
        }
        self.buckets = kept;
        self.clients = kept_clients;
    }

    /// Handles one request: decides it, and where it is let through and the
    /// caller's draw says so, sweeps the idle clients away afterwards.
    pub fn check(&mut self, key: &str, now_ms: u64, sweep_now: bool) -> (allowed: bool)
        requires
            old(self).wf(),
        ensures
            final(self).wf(),
            final(self).limit() == old(self).limit(),
            ({
                let before = if old(self)@.contains_key(key@) {
                    old(self)@[key@]
                } else {
                    TokenBucket::full(old(self).limit(), now_ms)
                };
                let admitted = old(self)@.insert(key@, before.after_request(now_ms));
                &&& allowed == before.admits(now_ms)
                &&& final(self)@ == (if allowed && sweep_now {
                    swept(admitted, now_ms)
                } else {
                    admitted
                })
            }),
    {
        let allowed = self.allow(key, now_ms);
        if allowed && sweep_now {
            self.sweep(now_ms);
        }
        allowed
    }
}

} // verus!
