//! Per-client token-bucket rate limiting.
//!
//! Token amounts are counted in billionths of a token and time in
//! nanoseconds of the caller's monotonic clock, so that refilling at
//! `rate` tokens per second adds exactly `elapsed_ns * rate` units.
use crate::config::RateLimitConfig;
use crate::text::{chars_of, string_of_range, trim, trim_seq};
use dashmap::DashMap;
use vstd::prelude::*;

verus! {

/// Units of one whole token.
pub const TOKEN: u64 = 1_000_000_000;

/// A client address: whether it is IPv6, and its bits (IPv4 in the low 32).
pub type ClientAddr = (bool, u128);

/// One client's token bucket.
#[derive(Debug, Clone, Copy, PartialEq, Eq, Structural)]
pub struct TokenBucket {
    /// Available tokens, in billionths.
    pub tokens: u64,
    /// When the bucket was last refilled, in nanoseconds.
    pub last_refill: u64,
    /// Capacity, in billionths of a token.
    pub max_tokens: u64,
    /// Tokens added per second (at least 1).
    pub refill_rate: u64,
}

/// A bucket is well formed when it holds no more than its capacity.
pub open spec fn bucket_wf(b: TokenBucket) -> bool {
    b.tokens <= b.max_tokens && b.max_tokens <= u32::MAX * TOKEN && 1 <= b.refill_rate <= u32::MAX
}

/// A full bucket of `burst` tokens refilled at `rate` (raised to 1) per second.
pub open spec fn fresh_bucket(burst: u32, rate: u32, now: u64) -> TokenBucket {
    TokenBucket {
        tokens: (burst * TOKEN) as u64,
        last_refill: now,
        max_tokens: (burst * TOKEN) as u64,
        refill_rate: if rate >= 1 {
            rate as u64
        } else {
            1
        },
    }
}

/// The tokens a bucket holds at `now` after refilling.
pub open spec fn refilled(b: TokenBucket, now: u64) -> nat {
    let elapsed = if now >= b.last_refill {
        now - b.last_refill
    } else {
        0
    };
    let grown = b.tokens + elapsed * b.refill_rate;
    if grown <= b.max_tokens {
        grown as nat
    } else {
        b.max_tokens as nat
    }
}

/// Refill, then take one token if a whole one is there.
pub open spec fn consume_step(b: TokenBucket, now: u64) -> (TokenBucket, bool) {
    let t = refilled(b, now);
    if t >= TOKEN {
        (TokenBucket { tokens: (t - TOKEN) as u64, last_refill: now, ..b }, true)
    } else {
        (TokenBucket { tokens: t as u64, last_refill: now, ..b }, false)
    }
}

/// Whole seconds until a token will be available: the missing fraction of a
/// token divided by the refill rate, rounded up.
pub open spec fn retry_secs(b: TokenBucket) -> nat {
    let missing = if b.tokens < TOKEN {
        (TOKEN - b.tokens) as nat
    } else {
        0
    };
    let per_sec = b.refill_rate * TOKEN;
    ((missing + per_sec - 1) / per_sec) as nat
}

impl TokenBucket {
    pub fn new(burst_size: u32, refill_rate: u32, now: u64) -> (b: Self)
        ensures
            b == fresh_bucket(burst_size, refill_rate, now),
            bucket_wf(b),
    {
        let cap = burst_size as u64 * TOKEN;
        TokenBucket {
            tokens: cap,
            last_refill: now,
            max_tokens: cap,
            refill_rate: if refill_rate >= 1 {
                refill_rate as u64
            } else {
                1
            },
        }
    }

    /// Refills for the time elapsed and takes one token if available.
    pub fn try_consume(&mut self, now: u64) -> (r: bool)
        requires
            bucket_wf(*old(self)),
        ensures
            (*final(self), r) == consume_step(*old(self), now),
            bucket_wf(*final(self)),
    {
        let elapsed: u64 = if now >= self.last_refill {
            now - self.last_refill
        } else {
            0
        };
        let e: u128 = elapsed as u128;
        let rate: u128 = self.refill_rate as u128;
        proof {
            assert(e * rate <= 0xffff_ffff_ffff_ffffu128 * 0xffff_ffffu128) by (nonlinear_arith)
                requires
                    e <= 0xffff_ffff_ffff_ffffu128,
                    rate <= 0xffff_ffffu128,
            ;
        }
        let grown: u128 = self.tokens as u128 + e * rate;
        let t: u64 = if grown <= self.max_tokens as u128 {
            grown as u64
        } else {
            self.max_tokens
        };
        self.last_refill = now;
        if t >= TOKEN {
            self.tokens = t - TOKEN;
            true
        } else {
            self.tokens = t;
            false
        }
    }

    /// Seconds the client should wait before retrying.
    pub fn retry_after(&self) -> (r: u64)
        requires
            bucket_wf(*self),
        ensures
            r == retry_secs(*self),
    {
        let missing: u64 = if self.tokens < TOKEN {
            TOKEN - self.tokens
        } else {
            0
        };
        let per_sec: u64 = self.refill_rate * TOKEN;
        (missing + per_sec - 1) / per_sec
    }
}

/// The map of buckets, keyed by client address.
pub type BucketMap = DashMap<ClientAddr, TokenBucket>;

/// The buckets a `DashMap` holds, by client address.
pub uninterp spec fn bucket_table(map: DashMap<ClientAddr, TokenBucket>) -> Map<ClientAddr, TokenBucket>;

/// Calls `DashMap::new`: an empty map.
#[verifier::external_body]
fn buckets_new() -> (fresh: BucketMap)
    ensures
        bucket_table(fresh).dom() == Set::<ClientAddr>::empty(),
{
    DashMap::new()
}

/// Calls `DashMap::get` and copies the bucket out.
#[verifier::external_body]
fn buckets_get(map: &BucketMap, key: ClientAddr) -> (r: Option<TokenBucket>)
    ensures
        r matches Some(b) ==> bucket_table(*map).contains_key(key) && b == bucket_table(*map)[key],
        r is None ==> !bucket_table(*map).contains_key(key),
{
    map.get(&key).map(|entry| *entry)
}

/// Calls `DashMap::insert`: sets the bucket of a client.
#[verifier::external_body]
fn buckets_insert(map: &mut BucketMap, key: ClientAddr, bucket: TokenBucket)
    ensures
        bucket_table(*final(map)) == bucket_table(*old(map)).insert(key, bucket),
{
    map.insert(key, bucket);
}

/// Token buckets of all clients, created full on a client's first request.
#[derive(Debug)]
pub struct RateLimiter {
    buckets: BucketMap,
    config: RateLimitConfig,
}

/// A client's bucket, or a fresh one created at `now`.
pub open spec fn bucket_or_fresh(
    table: Map<ClientAddr, TokenBucket>,
    config: RateLimitConfig,
    client: ClientAddr,
    now: u64,
) -> TokenBucket {
    if table.contains_key(client) {
        table[client]
    } else {
        fresh_bucket(config.burst_size, config.requests_per_second, now)
    }
}

impl RateLimiter {
    /// The buckets, by client.
    pub closed spec fn table(&self) -> Map<ClientAddr, TokenBucket> {
        bucket_table(self.buckets)
    }

    /// The configuration new buckets are made from.
    pub closed spec fn settings(&self) -> RateLimitConfig {
        self.config
    }

    /// Every bucket is well formed.
    pub closed spec fn wf(&self) -> bool {
        forall|k: ClientAddr| #[trigger] self.table().contains_key(k) ==> bucket_wf(self.table()[k])
    }

    pub fn new(config: &RateLimitConfig) -> (r: Self)
        ensures
            r.table() == Map::<ClientAddr, TokenBucket>::empty(),
            r.settings() == *config,
            r.wf(),
    {
        RateLimiter { buckets: buckets_new(), config: *config }
    }

    /// Admits a request of `client` at time `now`, or answers the seconds to
    /// wait before retrying.
    pub fn check(&mut self, client: ClientAddr, now: u64) -> (r: Result<(), u64>)
        requires
            old(self).wf(),
        ensures
            final(self).wf(),
            final(self).settings() == old(self).settings(),
            final(self).table() == old(self).table().insert(
                client,
                consume_step(bucket_or_fresh(old(self).table(), old(self).settings(), client, now), now).0,
            ),
            r == (if consume_step(bucket_or_fresh(old(self).table(), old(self).settings(), client, now), now).1 {
                Ok::<(), u64>(())
            } else {
                Err(retry_secs(consume_step(bucket_or_fresh(old(self).table(), old(self).settings(), client, now), now).0) as u64)
            }),
    {
        let mut bucket = match buckets_get(&self.buckets, client) {
            Some(b) => {
                assert(self.table().contains_key(client));
                b
            },
            None => TokenBucket::new(self.config.burst_size, self.config.requests_per_second, now),
        };
        let admitted = bucket.try_consume(now);
        let ghost before = self.table();
        buckets_insert(&mut self.buckets, client, bucket);
        proof {
            assert forall|k: ClientAddr| #[trigger] self.table().contains_key(k) implies bucket_wf(
                self.table()[k],
            ) by {
                if k != client {
                    assert(before.contains_key(k));
                }
            }
        }
        if admitted {
            Ok(())
        } else {
            Err(bucket.retry_after())
        }
    }
}

/// The first entry of an `X-Forwarded-For` value: the text before the first
/// comma, trimmed.
pub open spec fn first_forwarded_spec(header: Seq<char>) -> Seq<char> {
    let cut = if header.contains(',') {
        header.subrange(0, choose_first_comma(header))
    } else {
        header
    };
    trim_seq(cut)
}

/// The position of the first comma of a text.
pub open spec fn choose_first_comma(s: Seq<char>) -> int {
    choose|i: int| 0 <= i < s.len() && s[i] == ',' && forall|j: int| 0 <= j < i ==> s[j] != ','
}

/// The client address candidate an `X-Forwarded-For` header names first.
pub fn first_forwarded_entry(header: &str) -> (r: String)
    ensures
        r@ == first_forwarded_spec(header@),
{
    let v = chars_of(header);
    let n = v.len();
    let mut i: usize = 0;
    while i < n && v[i] != ','
        invariant
            i <= n == v@.len(),
            v@ == header@,
            forall|j: int| 0 <= j < i ==> v@[j] != ',',
        decreases n - i,
    {
        i = i + 1;
    }
    let cut = string_of_range(&v, 0, i);
    proof {
        if i < n {
            assert(header@.contains(','));
            let c = choose_first_comma(header@);
            assert(0 <= c < header@.len() && header@[c] == ',' && forall|j: int| 0 <= j < c ==> header@[j] != ',') by {
                assert(exists|k: int| 0 <= k < header@.len() && header@[k] == ',' && forall|j: int| 0 <= j < k ==> header@[j] != ',') by {
                    assert(v@[i as int] == ',');
                }
            }
            assert(c == i) by {
                if c < i {
                    assert(v@[c] != ',');
                } else if c > i {
                    assert(header@[i as int] == ',');
                }
            }
        } else {
            assert(!header@.contains(',')) by {
                if header@.contains(',') {
                    let k = choose|k: int| 0 <= k < header@.len() && header@[k] == ',';
                    assert(v@[k] != ',');
                }
            }
            assert(v@.subrange(0, n as int) =~= header@);
        }
    }
    trim(cut.as_str())
}

/// The loopback address 127.0.0.1.
pub open spec fn loopback() -> ClientAddr {
    (false, 0x7f00_0001u128)
}

/// The client a request is counted against: the address the first
/// `X-Forwarded-For` entry names, else the one `X-Real-IP` names, else the
/// loopback address (each `None` where the header is absent or names no
/// address).
pub fn client_address(forwarded: Option<ClientAddr>, real_ip: Option<ClientAddr>) -> (r: ClientAddr)
    ensures
        r == (match forwarded {
            Some(a) => a,
            None => match real_ip {
                Some(a) => a,
                None => loopback(),
            },
        }),
{
    match forwarded {
        Some(a) => a,
        None => match real_ip {
            Some(a) => a,
            None => (false, 0x7f00_0001u128),
        },
    }
}

} // verus!
