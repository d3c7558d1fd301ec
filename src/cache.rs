//! The single-slot token cache.
//!
//! Instants are plain millisecond counts read from a monotonic clock by the
//! caller; the time-to-live is a whole number of seconds.
use vstd::prelude::*;

use crate::error::ProxyError;

verus! {

/// Milliseconds in one second.
pub const MILLIS_PER_SEC: u64 = 1000;

/// A source of fresh credentials, asked once per cache refresh.
pub trait CredentialSource {
    fn fetch(&mut self) -> Result<String, ProxyError>;
}

/// A token and the instant (in milliseconds) at which it was stored.
pub struct TokenCacheEntry {
    pub token: String,
    pub inserted_at: u64,
}

/// Whether an entry stored at `inserted_at` is still valid at `now` under a
/// time-to-live of `ttl_secs` seconds: `now` lies in `[inserted_at, inserted_at + ttl)`.
pub open spec fn fresh_at(inserted_at: u64, ttl_secs: u64, now: u64) -> bool {
    inserted_at <= now && (now as int) < inserted_at as int + ttl_secs as int * MILLIS_PER_SEC as int
}

impl TokenCacheEntry {
    pub fn new(token: String, now: u64) -> (r: Self)
        ensures
            r.token == token,
            r.inserted_at == now,
    {
        TokenCacheEntry { token, inserted_at: now }
    }

    /// Whether this entry may still be served at `now`.
    pub fn is_fresh(&self, ttl_secs: u64, now: u64) -> (r: bool)
        ensures
            r == fresh_at(self.inserted_at, ttl_secs, now),
    {
        if now < self.inserted_at {
            return false;
        }
        let elapsed: u64 = now - self.inserted_at;
        let whole_secs: u64 = elapsed / MILLIS_PER_SEC;
        proof {
            lemma_elapsed_below_ttl(elapsed as int, ttl_secs as int);
        }
        whole_secs < ttl_secs
    }
}

proof fn lemma_elapsed_below_ttl(elapsed: int, ttl: int)
    requires
        elapsed >= 0,
        ttl >= 0,
    ensures
        (elapsed / 1000 < ttl) == (elapsed < ttl * 1000),
{
    assert((elapsed / 1000 < ttl) == (elapsed < ttl * 1000)) by (nonlinear_arith)
        requires
            elapsed >= 0,
            ttl >= 0,
    ;
}

/// At most one cached token, served while it is younger than the time-to-live.
pub struct TokenCache {
    pub ttl_secs: u64,
    pub entry: Option<TokenCacheEntry>,
}

impl TokenCache {
    /// The token this cache serves at `now`, if its entry is still fresh.
    pub open spec fn cached_at(&self, now: u64) -> Option<String> {
        match self.entry {
            Some(e) => if fresh_at(e.inserted_at, self.ttl_secs, now) {
                Some(e.token)
            } else {
                None
            },
            None => None,
        }
    }

    /// The cache after a refresh at `now` that produced `fetched`: a token is
    /// stored with that instant, a failure leaves the slot empty.
    pub open spec fn after_refresh(&self, fetched: Result<String, ProxyError>, now: u64) -> TokenCache {
        match fetched {
            Ok(t) => TokenCache { ttl_secs: self.ttl_secs, entry: Some(TokenCacheEntry { token: t, inserted_at: now }) },
            Err(_) => TokenCache { ttl_secs: self.ttl_secs, entry: None },
        }
    }

    pub fn new(ttl_secs: u64) -> (r: Self)
        ensures
            r.ttl_secs == ttl_secs,
            r.entry is None,
    {
        TokenCache { ttl_secs, entry: None }
    }

    /// The cached token if it is still fresh at `now`; `None` asks for a refresh.
    pub fn lookup(&self, now: u64) -> (r: Option<String>)
        ensures
            r == self.cached_at(now),
    {
        match &self.entry {
            Some(e) => {
                if e.is_fresh(self.ttl_secs, now) {
                    Some(e.token.clone())
                } else {
                    None
                }
            },
            None => None,
        }
    }

    /// Records the outcome of a refresh made at `now` and hands it on: a token
    /// replaces the entry, a failure empties the slot and is returned as is.
    pub fn complete_refresh(&mut self, fetched: Result<String, ProxyError>, now: u64) -> (r: Result<String, ProxyError>)
        ensures
            *final(self) == old(self).after_refresh(fetched, now),
            r == fetched,
    {
        match fetched {
            Ok(token) => {
                self.entry = Some(TokenCacheEntry::new(token.clone(), now));
                Ok(token)
            },
            Err(e) => {
                self.entry = None;
                Err(e)
            },
        }
    }

    /// Serves the fresh cached token, or asks `source` exactly once for a new
    /// one and records the outcome. The caller serialises calls on one cache,
    /// so that concurrent readers share a single refresh.
    pub fn get_or_refresh<S: CredentialSource>(&mut self, source: &mut S, now: u64) -> (r: Result<String, ProxyError>)
        ensures
            old(self).cached_at(now) is Some ==> {
                &&& r == Ok::<String, ProxyError>(old(self).cached_at(now)->Some_0)
                &&& *final(self) == *old(self)
                &&& *final(source) == *old(source)
            },
            old(self).cached_at(now) is None ==> *final(self) == old(self).after_refresh(r, now),
    {
        match self.lookup(now) {
            Some(token) => Ok(token),
            None => {
                let fetched = source.fetch();
                self.complete_refresh(fetched, now)
            },
        }
    }
}

/// A token fetched at `t0` is served unchanged at every read in
/// `[t0, t0 + ttl)`, and every read at or after `t0 + ttl` asks for a fresh one.
pub proof fn lemma_ttl_window(cache: TokenCache, token: String, t0: u64, now: u64)
    ensures
        t0 <= now < t0 + cache.ttl_secs * MILLIS_PER_SEC ==> cache.after_refresh(Ok(token), t0).cached_at(now)
            == Some(token),
        now >= t0 + cache.ttl_secs * MILLIS_PER_SEC ==> cache.after_refresh(Ok(token), t0).cached_at(now) is None,
{
}

/// With a time-to-live of zero, no read is ever served from the cache: each
/// one asks for a fresh token.
pub proof fn lemma_zero_ttl_always_refreshes(cache: TokenCache, now: u64)
    requires
        cache.ttl_secs == 0,
    ensures
        cache.cached_at(now) is None,
{
}

/// Readers that queue on the cache while a refresh runs are served by that
/// one refresh: once it stores `token` at `t0`, every reader served before
/// the entry expires finds `token` fresh, so `get_or_refresh` hands it out
/// without asking the source again, whatever the order of the readers.
pub proof fn lemma_single_flight(cache: TokenCache, token: String, t0: u64, reads: Seq<u64>)
    requires
        forall|i: int| 0 <= i < reads.len() ==> t0 <= #[trigger] reads[i] < t0 + cache.ttl_secs * MILLIS_PER_SEC,
    ensures
        forall|i: int| 0 <= i < reads.len() ==> #[trigger] cache.after_refresh(Ok(token), t0).cached_at(reads[i])
            == Some(token),
{
}

} // verus!
