//! Serving one request: the target, the token and the rewritten head.
use vstd::prelude::*;

use crate::cache::{CredentialSource, TokenCache};
use crate::config::ProxyParams;
use crate::error::ProxyError;
use crate::rewrite::{
    parse_target, rewrite, rewritten, target_of, token_encodable, uri_scheme_authority,
    OutboundHead, RequestHead, TargetBase,
};

verus! {

/// Upper bound on one upstream round trip, in seconds.
pub const FORWARD_TIMEOUT_SECS: u64 = 600;

/// The next thing to do for a request.
pub enum RequestStep {
    /// Send this head upstream.
    Forward(OutboundHead),
    /// No fresh token is cached: obtain one, then finish with
    /// `ProxyContext::finish_request` while still holding the cache.
    Refresh(RequestHead, TargetBase),
}

/// The configuration and the token cache shared by every request.
pub struct ProxyContext {
    pub params: ProxyParams,
    pub cache: TokenCache,
}

/// The target the configured URL names, if it is usable.
pub open spec fn configured_target(params: ProxyParams) -> Option<(Seq<char>, Seq<char>)> {
    target_of(uri_scheme_authority(params.target_url@))
}

/// What a request ends in once its token is known.
pub open spec fn outcome_with_token(
    r: Result<OutboundHead, ProxyError>,
    inbound: RequestHead,
    target: (Seq<char>, Seq<char>),
    token: Seq<char>,
) -> bool {
    &&& token_encodable(token) ==> r is Ok && r->Ok_0@ == rewritten(inbound, target, token)
    &&& !token_encodable(token) ==> r == Err::<OutboundHead, ProxyError>(ProxyError::HeaderEncodingError)
}

impl ProxyContext {
    pub fn new(params: ProxyParams) -> (r: Self)
        ensures
            r.params == params,
            r.cache.ttl_secs == params.cache_ttl_secs,
            r.cache.entry is None,
    {
        let ttl_secs = params.cache_ttl_secs;
        ProxyContext { params, cache: TokenCache::new(ttl_secs) }
    }

    /// The first part of serving `inbound` at `now`: resolve the target and,
    /// if a fresh token is cached, rewrite the request with it.
    pub fn begin_request(&self, inbound: RequestHead, now: u64) -> (r: Result<RequestStep, ProxyError>)
        ensures
            configured_target(self.params) is None ==> r == Err::<RequestStep, ProxyError>(ProxyError::InvalidTargetUrl),
            configured_target(self.params) is Some && self.cache.cached_at(now) is None ==> {
                &&& r is Ok
                &&& (r->Ok_0 matches RequestStep::Refresh(h, t)
                    && h == inbound && t@ == configured_target(self.params)->Some_0)
            },
            configured_target(self.params) is Some && self.cache.cached_at(now) is Some ==> {
                let token = self.cache.cached_at(now)->Some_0@;
                let target = configured_target(self.params)->Some_0;
                &&& token_encodable(token) ==> r is Ok && (r->Ok_0 matches RequestStep::Forward(o)
                    && o@ == rewritten(inbound, target, token))
                &&& !token_encodable(token) ==> r == Err::<RequestStep, ProxyError>(ProxyError::HeaderEncodingError)
            },
    {
        let target = match parse_target(self.params.target_url.as_str()) {
            Ok(t) => t,
            Err(e) => return Err(e),
        };
        match self.cache.lookup(now) {
            Some(token) => match rewrite(inbound, &target, &token) {
                Ok(o) => Ok(RequestStep::Forward(o)),
                Err(e) => Err(e),
            },
            None => Ok(RequestStep::Refresh(inbound, target)),
        }
    }

    /// The second part, after a refresh that produced `fetched` at `now`: the
    /// cache records the outcome, and a token rewrites the request.
    pub fn finish_request(
        &mut self,
        inbound: RequestHead,
        target: &TargetBase,
        fetched: Result<String, ProxyError>,
        now: u64,
    ) -> (r: Result<OutboundHead, ProxyError>)
        ensures
            final(self).params == old(self).params,
            final(self).cache == old(self).cache.after_refresh(fetched, now),
            fetched is Err ==> r == Err::<OutboundHead, ProxyError>(fetched->Err_0),
            fetched is Ok ==> outcome_with_token(r, inbound, target@, fetched->Ok_0@),
    {
        match self.cache.complete_refresh(fetched, now) {
            Ok(token) => rewrite(inbound, target, &token),
            Err(e) => Err(e),
        }
    }

    /// Serves `inbound` at `now` in one go, asking `source` for a token when
    /// none is fresh.
    pub fn handle_request<S: CredentialSource>(&mut self, inbound: RequestHead, now: u64, source: &mut S) -> (r: Result<OutboundHead, ProxyError>)
        ensures
            final(self).params == old(self).params,
            final(self).cache.ttl_secs == old(self).cache.ttl_secs,
            configured_target(old(self).params) is None ==> {
                &&& r == Err::<OutboundHead, ProxyError>(ProxyError::InvalidTargetUrl)
                &&& final(self).cache == old(self).cache
                &&& *final(source) == *old(source)
            },
            configured_target(old(self).params) is Some && old(self).cache.cached_at(now) is Some ==> {
                &&& final(self).cache == old(self).cache
                &&& *final(source) == *old(source)
                &&& outcome_with_token(r, inbound, configured_target(old(self).params)->Some_0, old(self).cache.cached_at(now)->Some_0@)
            },
            configured_target(old(self).params) is Some && old(self).cache.cached_at(now) is None ==> match final(self).cache.entry {
                Some(e) => e.inserted_at == now
                    && outcome_with_token(r, inbound, configured_target(old(self).params)->Some_0, e.token@),
                None => r is Err,
            },
    {
        match self.begin_request(inbound, now) {
            Err(e) => Err(e),
            Ok(RequestStep::Forward(o)) => Ok(o),
            Ok(RequestStep::Refresh(inbound, target)) => {
                let fetched = source.fetch();
                self.finish_request(inbound, &target, fetched, now)
            },
        }
    }
}

/// Repeating a request while the cache entry is unchanged and fresh sends the
/// same head upstream each time.
pub proof fn lemma_repeat_request_same_outbound(ctx: ProxyContext, inbound: RequestHead, t1: u64, t2: u64)
    requires
        configured_target(ctx.params) is Some,
        ctx.cache.cached_at(t1) is Some,
        ctx.cache.cached_at(t2) is Some,
    ensures
        ctx.cache.cached_at(t1) == ctx.cache.cached_at(t2),
        rewritten(inbound, configured_target(ctx.params)->Some_0, ctx.cache.cached_at(t1)->Some_0@)
            == rewritten(inbound, configured_target(ctx.params)->Some_0, ctx.cache.cached_at(t2)->Some_0@),
{
}

} // verus!
