//! Sliding-window rate limits per API key: a client key may make 100
//! requests a minute, an agent key 150. Buckets are keyed by the kind and
//! the keyed hash of the key, so that no plain key is kept in memory.

use vstd::prelude::*;
use crate::auth::{api_key_of, bearer_token, extract_api_key, extract_bearer_token, hash_api_key, api_key_hash, RequestHeaders};
use crate::error::AppError;
use crate::text::concat;
use vstd::utf8::encode_utf8;

verus! {

#[verifier::external_type_specification]
#[verifier::external_body]
#[verifier::reject_recursive_types(K)]
#[verifier::reject_recursive_types(V)]
#[verifier::reject_recursive_types(S)]
pub struct ExDashMap<K, V, S>(dashmap::DashMap<K, V, S>);

#[verifier::external_type_specification]
#[verifier::external_body]
pub struct ExInstant(std::time::Instant);

/// What a bucket map holds: the request times (nanoseconds since the
/// limiter was made) under each bucket key.
pub uninterp spec fn bucket_contents(m: dashmap::DashMap<String, Vec<u64>>) -> Map<Seq<char>, Seq<u64>>;

/// `DashMap::new`: an empty map.
#[verifier::external_body]
fn buckets_new() -> (res: dashmap::DashMap<String, Vec<u64>>)
    ensures
        bucket_contents(res).dom() == Set::<Seq<char>>::empty(),
{
    dashmap::DashMap::new()
}

/// `DashMap::remove`: takes the entry of `key` out of the map and hands
/// back its value, `None` when there was none.
#[verifier::external_body]
fn bucket_remove(m: &mut dashmap::DashMap<String, Vec<u64>>, key: &str) -> (res: Option<Vec<u64>>)
    ensures
        bucket_contents(*final(m)) == bucket_contents(*old(m)).remove(key@),
        match res {
            Some(v) => bucket_contents(*old(m)).contains_key(key@) && v@ == bucket_contents(*old(m))[key@],
            None => !bucket_contents(*old(m)).contains_key(key@),
        },
{
    match m.remove(key) {
        Some((_, v)) => Some(v),
        None => None,
    }
}

/// `DashMap::insert`: `key` maps to `value` from now on.
#[verifier::external_body]
fn bucket_insert(m: &mut dashmap::DashMap<String, Vec<u64>>, key: String, value: Vec<u64>)
    ensures
        bucket_contents(*final(m)) == bucket_contents(*old(m)).insert(key@, value@),
{
    m.insert(key, value);
}

/// `Instant::now`: the current instant of the monotonic clock.
#[verifier::external_body]
fn instant_now() -> (res: std::time::Instant) {
    std::time::Instant::now()
}

/// `Instant::elapsed`: the time since `origin`. What the clock reads is left
/// open.
#[verifier::external_body]
fn elapsed_since(origin: &std::time::Instant) -> (res: std::time::Duration) {
    origin.elapsed()
}

/// `Duration::as_nanos`: the whole nanoseconds of a duration. Nothing is
/// stated of the number.
#[verifier::external_body]
fn duration_nanos(d: &std::time::Duration) -> (res: u128) {
    d.as_nanos()
}

/// Nanoseconds since `origin`, as far as a `u64` holds them (over 500
/// years).
fn nanos_since(origin: &std::time::Instant) -> (res: u64) {
    let n = duration_nanos(&elapsed_since(origin));
    if n > 0xffff_ffff_ffff_ffffu128 {
        0xffff_ffff_ffff_ffffu64
    } else {
        n as u64
    }
}

/// The window of the limits: one minute, in nanoseconds.
pub open spec fn window_nanos() -> u64 {
    60_000_000_000
}

/// The kind of key a limit applies to.
#[derive(Debug, Clone, Copy, PartialEq, Eq, Structural)]
pub enum RateLimitKind {
    /// Client (and admin) keys, sent as bearer tokens.
    Client,
    /// Agent keys, sent as `X-API-Key` or bearer tokens.
    Agent,
}

impl RateLimitKind {
    /// The name of the kind in bucket keys.
    pub open spec fn name(self) -> Seq<char> {
        match self {
            RateLimitKind::Client => "client"@,
            RateLimitKind::Agent => "agent"@,
        }
    }

    /// Requests allowed per window.
    pub open spec fn max_requests(self) -> nat {
        match self {
            RateLimitKind::Client => 100,
            RateLimitKind::Agent => 150,
        }
    }

    /// The name of the kind in bucket keys.
    pub fn as_str(&self) -> (res: &'static str)
        ensures
            res@ == self.name(),
    {
        match self {
            RateLimitKind::Client => "client",
            RateLimitKind::Agent => "agent",
        }
    }

    /// Requests allowed per minute: 100 for clients, 150 for agents.
    pub fn limit(&self) -> (res: usize)
        ensures
            res == self.max_requests(),
    {
        match self {
            RateLimitKind::Client => 100,
            RateLimitKind::Agent => 150,
        }
    }
}

/// The bucket of a key hash: "<kind>:<hash>".
pub open spec fn bucket_key(kind: RateLimitKind, key_hash: Seq<char>) -> Seq<char> {
    kind.name() + ":"@ + key_hash
}

/// Whether a request at time `t` still counts at time `now`: less than a
/// window has passed (a time after `now` counts as no time passed).
pub open spec fn in_window(t: u64, now: u64) -> bool {
    (if now >= t {
        now - t
    } else {
        0
    }) < window_nanos()
}

/// The request times of `b` that still count at `now`, in order.
pub open spec fn recent(b: Seq<u64>, now: u64) -> Seq<u64>
    decreases b.len(),
{
    if b.len() == 0 {
        b
    } else if in_window(b.last(), now) {
        recent(b.drop_last(), now).push(b.last())
    } else {
        recent(b.drop_last(), now)
    }
}

/// The request times of a bucket (none when it does not exist).
pub open spec fn bucket_of(buckets: Map<Seq<char>, Seq<u64>>, key: Seq<char>) -> Seq<u64> {
    if buckets.contains_key(key) {
        buckets[key]
    } else {
        seq![]
    }
}

/// The outcome of a request of `kind` with `key_hash` at time `now`, on
/// the buckets `before`: the bucket keeps its recent requests; when they
/// reach the limit the request is refused, otherwise it is recorded.
pub open spec fn limited(
    before: Map<Seq<char>, Seq<u64>>,
    kind: RateLimitKind,
    key_hash: Seq<char>,
    now: u64,
    res: Result<(), AppError>,
    after: Map<Seq<char>, Seq<u64>>,
) -> bool {
    let key = bucket_key(kind, key_hash);
    let kept = recent(bucket_of(before, key), now);
    if kept.len() >= kind.max_requests() {
        res == Err::<(), AppError>(AppError::RateLimited) && after == before.insert(key, kept)
    } else {
        res == Ok::<(), AppError>(()) && after == before.insert(key, kept.push(now))
    }
}

/// A sliding-window limiter over bucket keys.
pub struct RateLimiter {
    buckets: dashmap::DashMap<String, Vec<u64>>,
    origin: std::time::Instant,
    /// The last reading of the limiter's clock, in nanoseconds since it
    /// was made.
    reading: Ghost<u64>,
}

impl RateLimiter {
    /// The request times held under each bucket key.
    pub closed spec fn buckets(&self) -> Map<Seq<char>, Seq<u64>> {
        bucket_contents(self.buckets)
    }

    /// The last reading of the limiter's clock: nanoseconds since the
    /// limiter was made, as `check` last took them.
    pub closed spec fn last_reading(&self) -> u64 {
        self.reading@
    }

    /// Reads the limiter's clock: the nanoseconds elapsed since it was
    /// made, which become its last reading.
    fn read_clock(&mut self) -> (res: u64)
        ensures
            res == final(self).last_reading(),
            final(self).buckets() == old(self).buckets(),
    {
        let now = nanos_since(&self.origin);
        self.reading = Ghost(now);
        now
    }

    /// A limiter that has seen no request.
    pub fn new() -> (res: RateLimiter)
        ensures
            res.buckets() == Map::<Seq<char>, Seq<u64>>::empty(),
    {
        let r = RateLimiter { buckets: buckets_new(), origin: instant_now(), reading: Ghost(0) };
        assert(r.buckets() =~= Map::<Seq<char>, Seq<u64>>::empty());
        r
    }

    /// Checks and records a request of `kind` with `key_hash` at time `now`
    /// (nanoseconds since the limiter was made).
    pub fn check_at(&mut self, kind: RateLimitKind, key_hash: &str, now: u64) -> (res: Result<(), AppError>)
        ensures
            limited(old(self).buckets(), kind, key_hash@, now, res, final(self).buckets()),
            final(self).last_reading() == old(self).last_reading(),
    {
        proof {
            reveal_strlit(":");
        }
        let prefix = concat(kind.as_str(), ":");
        let key = concat(prefix.as_str(), key_hash);
        let ghost before = self.buckets();
        let bucket = match bucket_remove(&mut self.buckets, key.as_str()) {
            Some(v) => v,
            None => Vec::new(),
        };
        assert(bucket@ == bucket_of(before, key@));
        let mut kept: Vec<u64> = Vec::new();
        let mut i: usize = 0;
        while i < bucket.len()
            invariant
                i <= bucket@.len(),
                kept@ == recent(bucket@.take(i as int), now),
            decreases bucket@.len() - i,
        {
            assert(bucket@.take(i + 1).drop_last() =~= bucket@.take(i as int));
            assert(bucket@.take(i + 1).last() == bucket@[i as int]);
            let t = bucket[i];
            let age = if now >= t {
                now - t
            } else {
                0
            };
            if age < 60_000_000_000 {
                kept.push(t);
            }
            i = i + 1;
        }
        assert(bucket@.take(i as int) =~= bucket@);
        if kept.len() >= kind.limit() {
            bucket_insert(&mut self.buckets, key, kept);
            assert(self.buckets() =~= before.insert(bucket_key(kind, key_hash@), recent(bucket_of(before, bucket_key(kind, key_hash@)), now)));
            return Err(AppError::RateLimited);
        }
        kept.push(now);
        bucket_insert(&mut self.buckets, key, kept);
        assert(self.buckets() =~= before.insert(bucket_key(kind, key_hash@), recent(bucket_of(before, bucket_key(kind, key_hash@)), now).push(now)));
        Ok(())
    }

    /// Checks and records a request of `kind` with `key_hash` now: the
    /// clock is read once, and the request is judged and recorded at that
    /// reading (nanoseconds since the limiter was made, the unit of
    /// `window_nanos`); over the limit it is refused with `RateLimited`.
    pub fn check(&mut self, kind: RateLimitKind, key_hash: &str) -> (res: Result<(), AppError>)
        ensures
            limited(old(self).buckets(), kind, key_hash@, final(self).last_reading(), res, final(self).buckets()),
            exists|now: u64| #[trigger] limited(old(self).buckets(), kind, key_hash@, now, res, final(self).buckets()),
    {
        let now = self.read_clock();
        self.check_at(kind, key_hash, now)
    }
}

impl Default for RateLimiter {
    /// A limiter that has seen no request.
    fn default() -> (res: Self)
        ensures
            res.buckets() == Map::<Seq<char>, Seq<u64>>::empty(),
    {
        RateLimiter::new()
    }
}

/// The limit of the client routes: a request with a bearer token (and a
/// configured secret key) counts against the bucket of the token's hash;
/// other requests pass on to authentication.
pub fn client_rate_limit_middleware(limiter: &mut RateLimiter, headers: &RequestHeaders, secret_key: Option<&str>) -> (res: Result<(), AppError>)
    ensures
        (bearer_token(headers.authorization) is None || secret_key is None) ==> res is Ok && final(limiter).buckets() == old(limiter).buckets(),
        (bearer_token(headers.authorization) matches Some(t) && secret_key matches Some(k)) ==> exists|now: u64| #[trigger] limited(
            old(limiter).buckets(),
            RateLimitKind::Client,
            api_key_hash(encode_utf8(secret_key.unwrap()@), encode_utf8(bearer_token(headers.authorization).unwrap())),
            now,
            res,
            final(limiter).buckets(),
        ),
{
    if let Ok(api_key) = extract_bearer_token(headers) {
        if let Some(secret) = secret_key {
            let key_hash = hash_api_key(secret, api_key.as_str());
            return limiter.check(RateLimitKind::Client, key_hash.as_str());
        }
    }
    Ok(())
}

/// The limit of the agent routes: a request with an agent key
/// (`X-API-Key` or bearer token, and a configured secret key) counts
/// against the bucket of the key's hash; other requests pass on.
pub fn agent_rate_limit_middleware(limiter: &mut RateLimiter, headers: &RequestHeaders, secret_key: Option<&str>) -> (res: Result<(), AppError>)
    ensures
        (api_key_of(*headers) is None || secret_key is None) ==> res is Ok && final(limiter).buckets() == old(limiter).buckets(),
        (api_key_of(*headers) is Some && secret_key is Some) ==> exists|now: u64| #[trigger] limited(
            old(limiter).buckets(),
            RateLimitKind::Agent,
            api_key_hash(encode_utf8(secret_key.unwrap()@), encode_utf8(api_key_of(*headers).unwrap())),
            now,
            res,
            final(limiter).buckets(),
        ),
{
    if let Some(api_key) = extract_api_key(headers) {
        assert(api_key@ == api_key_of(*headers).unwrap());
        if let Some(secret) = secret_key {
            let key_hash = hash_api_key(secret, api_key.as_str());
            return limiter.check(RateLimitKind::Agent, key_hash.as_str());
        }
    }
    Ok(())
}

} // verus!
