//! Short-lived access credentials for the authenticated session.
//!
//! The provider caches the most recent token and hands it out only while
//! it is still strictly before its expiry instant. When the cache cannot
//! serve a caller, the provider admits exactly one fetch at a time: the
//! first caller to ask is told to start the fetch, every concurrent caller
//! is told to wait for its result. The fetch itself is network work the
//! application performs; it reports the outcome back through
//! [`TokenProvider::complete_fetch`] or [`TokenProvider::fail_fetch`], and
//! a failure is surfaced to the caller as an auth error, never retried
//! internally.

use vstd::prelude::*;

verus! {

/// An opaque credential plus the absolute instant at which it expires.
/// The token is usable only strictly before that instant.
#[derive(Debug, Clone, PartialEq, Eq)]
pub struct AccessToken {
    pub token: String,
    pub expires: u64,
}

/// What a caller asking for a token must do next.
#[derive(Debug, Clone, Copy, PartialEq, Eq)]
pub enum TokenStep {
    /// A usable token is cached; take it with [`TokenProvider::get_cached`].
    Ready,
    /// No usable token and no fetch under way: this caller performs the
    /// one fetch and reports its outcome.
    StartFetch,
    /// Another caller's fetch is already in flight: wait for its result.
    AwaitFetch,
}

/// Caches tokens and collapses concurrent fetches into a single flight.
pub struct TokenProvider {
    cached: Option<AccessToken>,
    fetch_in_flight: bool,
}

impl TokenProvider {
    /// The token the cache currently holds, usable or not.
    pub closed spec fn cached_token(&self) -> Option<AccessToken> {
        self.cached
    }

    /// Whether a fetch is currently under way.
    pub closed spec fn fetch_in_flight(&self) -> bool {
        self.fetch_in_flight
    }

    /// Whether the cache can serve a caller at instant `now`.
    pub open spec fn has_usable_token(&self, now: u64) -> bool {
        match self.cached_token() {
            Some(t) => now < t.expires,
            None => false,
        }
    }

    /// A fresh provider: empty cache, no fetch in flight.
    pub fn new() -> (r: Self)
        ensures
            r.cached_token() is None,
            !r.fetch_in_flight(),
    {
        TokenProvider { cached: None, fetch_in_flight: false }
    }

    /// The cached token, if and only if it is still usable at `now`. The
    /// provider never hands out a token whose expiry has already passed.
    pub fn get_cached(&self, now: u64) -> (r: Option<&AccessToken>)
        ensures
            match r {
                Some(t) => {
                    &&& self.cached_token() == Some(*t)
                    &&& now < t.expires
                    &&& self.has_usable_token(now)
                },
                None => !self.has_usable_token(now),
            },
    {
        match &self.cached {
            Some(t) => if now < t.expires {
                Some(t)
            } else {
                None
            },
            None => None,
        }
    }

    /// Decides, at instant `now`, how a caller's request for a token is
    /// served: from the cache when it can serve, else by the one fetch —
    /// started by this caller exactly when none is in flight yet.
    pub fn get_step(&mut self, now: u64) -> (r: TokenStep)
        ensures
            final(self).cached_token() == old(self).cached_token(),
            match r {
                TokenStep::Ready => {
                    &&& old(self).has_usable_token(now)
                    &&& final(self).fetch_in_flight() == old(self).fetch_in_flight()
                },
                TokenStep::StartFetch => {
                    &&& !old(self).has_usable_token(now)
                    &&& !old(self).fetch_in_flight()
                    &&& final(self).fetch_in_flight()
                },
                TokenStep::AwaitFetch => {
                    &&& !old(self).has_usable_token(now)
                    &&& old(self).fetch_in_flight()
                    &&& final(self).fetch_in_flight()
                },
            },
    {
        let usable = match &self.cached {
            Some(t) => now < t.expires,
            None => false,
        };
        if usable {
            TokenStep::Ready
        } else if !self.fetch_in_flight {
            self.fetch_in_flight = true;
            TokenStep::StartFetch
        } else {
            TokenStep::AwaitFetch
        }
    }

    /// Records the token a successful fetch produced; every caller that
    /// was waiting now gets exactly this token from the cache.
    pub fn complete_fetch(&mut self, token: AccessToken)
        ensures
            final(self).cached_token() == Some(token),
            !final(self).fetch_in_flight(),
    {
        self.cached = Some(token);
        self.fetch_in_flight = false;
    }

    /// Records a failed fetch: the flight ends, the cache is unchanged,
    /// and the caller surfaces the auth error itself.
    pub fn fail_fetch(&mut self)
        ensures
            final(self).cached_token() == old(self).cached_token(),
            !final(self).fetch_in_flight(),
    {
        self.fetch_in_flight = false;
    }
}

/// How many of `n` consecutive callers, each taking its `get_step` turn
/// while no cached token can serve and no fetch completes in between, are
/// told to start a fetch. Each turn moves the flight flag exactly as the
/// `ensures` of [`TokenProvider::get_step`] describes: the caller that
/// finds no flight starts one, and a flight is under way afterwards.
pub open spec fn fetches_started(in_flight: bool, n: nat) -> nat
    decreases n,
{
    if n == 0 {
        0
    } else {
        (if in_flight {
            0nat
        } else {
            1nat
        }) + fetches_started(true, (n - 1) as nat)
    }
}

/// While a flight is under way, no further caller starts another.
pub proof fn lemma_no_fetch_while_in_flight(n: nat)
    ensures
        fetches_started(true, n) == 0,
    decreases n,
{
    if n > 0 {
        lemma_no_fetch_while_in_flight((n - 1) as nat);
    }
}

/// Law: single-flight. However many callers — at least one — ask for a
/// token while the cache cannot serve and no fetch is in flight yet,
/// exactly one of them performs a fetch; and once that fetch completes
/// with a token, the cache serves every caller the very same token, so
/// all of them see the same expiry.
pub proof fn lemma_single_flight(n: nat)
    requires
        n >= 1,
    ensures
        fetches_started(false, n) == 1,
{
    lemma_no_fetch_while_in_flight((n - 1) as nat);
}

} // verus!
