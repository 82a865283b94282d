//! The bearer-token cache.
//!
//! A `MetadataToken` owns one slot holding a token and its expiry, both set
//! or both absent. Refreshing is a small state machine: a caller polls the
//! cache with the current time and is told to use the cached token, to fetch
//! a new one, or to wait for the fetch that another caller already started.
//! The caller that was told to fetch hands the outcome back through `finish`.
//! So at most one fetch is ever in flight, and callers that arrive during it
//! reuse its result.

use vstd::prelude::*;

verus! {

/// What a caller of `poll` is to do next.
pub enum Step {
    /// The cached token is valid: use it.
    Ready(String),
    /// No valid token and no fetch in flight: fetch a token for this scope
    /// and hand the outcome to `finish`.
    Fetch(String),
    /// Another caller is fetching: wait until it finishes, then poll again.
    Wait,
}

/// Token cache for the instance-metadata endpoint of the compute environment.
pub struct MetadataToken {
    // the token and its expiry (unix seconds), set or cleared together
    token: Option<(String, u64)>,
    // the access scope, kept for every refresh
    access_scope: String,
    // whether a caller has been told to fetch and has not finished yet
    refreshing: bool,
}

/// The abstract state of a cache.
pub struct TokenView {
    pub cached: Option<(Seq<char>, u64)>,
    pub scope: Seq<char>,
    pub refreshing: bool,
}

/// The scope a cache gets by default: full control of the storage service.
pub open spec fn default_scope() -> Seq<char> {
    "https://www.googleapis.com/auth/devstorage.full_control"@
}

pub open spec fn pair_view(p: Option<(String, u64)>) -> Option<(Seq<char>, u64)> {
    match p {
        Some((t, e)) => Some((t@, e)),
        None => None,
    }
}

/// A cached token is valid strictly before its expiry.
pub open spec fn is_fresh(cached: Option<(Seq<char>, u64)>, now: u64) -> bool {
    match cached {
        Some((_, exp)) => now < exp,
        None => false,
    }
}

/// Whether a poll at `now` tells its caller to fetch.
pub open spec fn poll_fetches(v: TokenView, now: u64) -> bool {
    !is_fresh(v.cached, now) && !v.refreshing
}

/// The state after a poll at `now`.
pub open spec fn poll_view(v: TokenView, now: u64) -> TokenView {
    if poll_fetches(v, now) {
        TokenView { refreshing: true, ..v }
    } else {
        v
    }
}

/// The state after a fetch ends: a fetched pair replaces the cached one, a
/// failed fetch (`None`) leaves it as it was.
pub open spec fn finish_view(v: TokenView, outcome: Option<(Seq<char>, u64)>) -> TokenView {
    TokenView {
        cached: match outcome {
            Some(p) => Some(p),
            None => v.cached,
        },
        scope: v.scope,
        refreshing: false,
    }
}

/// The state after installing a token and its expiry.
pub open spec fn install_view(v: TokenView, token: Seq<char>, exp: u64) -> TokenView {
    TokenView { cached: Some((token, exp)), ..v }
}

impl View for MetadataToken {
    type V = TokenView;

    closed spec fn view(&self) -> TokenView {
        TokenView {
            cached: pair_view(self.token),
            scope: self.access_scope@,
            refreshing: self.refreshing,
        }
    }
}

impl Default for MetadataToken {
    fn default() -> (r: Self)
        ensures
            r@.cached is None,
            r@.scope == default_scope(),
            !r@.refreshing,
    {
        MetadataToken::new("https://www.googleapis.com/auth/devstorage.full_control")
    }
}

impl MetadataToken {
    /// Construct a new token cache for the given access scope.
    pub fn new(scope: &str) -> (r: Self)
        ensures
            r@.cached is None,
            r@.scope == scope@,
            !r@.refreshing,
    {
        MetadataToken { token: None, access_scope: scope.to_string(), refreshing: false }
    }

    /// The access scope this cache was made for.
    pub fn scope(&self) -> (r: String)
        ensures
            r@ == self@.scope,
    {
        self.access_scope.clone()
    }

    /// A copy of the cached token and its expiry, if any.
    pub fn token_and_exp(&self) -> (r: Option<(String, u64)>)
        ensures
            pair_view(r) == self@.cached,
    {
        match &self.token {
            Some((t, e)) => Some((t.clone(), *e)),
            None => None,
        }
    }

    /// Replace the cached token and expiry.
    pub fn set_token(&mut self, token: String, exp: u64)
        ensures
            final(self)@ == install_view(old(self)@, token@, exp),
    {
        self.token = Some((token, exp));
    }

    /// Whether a fetch is in flight.
    pub fn is_refreshing(&self) -> (r: bool)
        ensures
            r == self@.refreshing,
    {
        self.refreshing
    }

    /// The cached token, if it is still valid at `now`.
    pub fn valid_token(&self, now: u64) -> (r: Option<String>)
        ensures
            r is Some <==> is_fresh(self@.cached, now),
            r matches Some(t) ==> self@.cached matches Some((c, _)) && t@ == c,
    {
        match &self.token {
            Some((t, e)) => {
                if now < *e {
                    Some(t.clone())
                } else {
                    None
                }
            },
            None => None,
        }
    }

    /// Decide what a caller asking for a token at `now` does: use the cached
    /// token, fetch a new one (and so become the one fetch in flight), or
    /// wait for the fetch in flight.
    pub fn poll(&mut self, now: u64) -> (r: Step)
        ensures
            final(self)@ == poll_view(old(self)@, now),
            r is Ready <==> is_fresh(old(self)@.cached, now),
            r is Fetch <==> poll_fetches(old(self)@, now),
            r is Wait <==> !is_fresh(old(self)@.cached, now) && old(self)@.refreshing,
            r matches Step::Ready(t) ==> old(self)@.cached matches Some((c, _)) && t@ == c,
            r matches Step::Fetch(s) ==> s@ == old(self)@.scope,
    {
        match self.valid_token(now) {
            Some(t) => Step::Ready(t),
            None => {
                if self.refreshing {
                    Step::Wait
                } else {
                    self.refreshing = true;
                    Step::Fetch(self.access_scope.clone())
                }
            },
        }
    }

    /// Take the outcome of the fetch that `poll` asked for. A fetched token
    /// is installed and returned; an error is returned as it came and leaves
    /// the cached value in place, so that the next poll fetches again.
    pub fn finish<E>(&mut self, outcome: Result<(String, u64), E>) -> (r: Result<String, E>)
        ensures
            final(self)@ == finish_view(
                old(self)@,
                match outcome {
                    Ok((t, e)) => Some((t@, e)),
                    Err(_) => None,
                },
            ),
            outcome matches Ok((t, _)) ==> r matches Ok(s) && s@ == t@,
            outcome matches Err(e) ==> r matches Err(f) && f == e,
    {
        self.refreshing = false;
        match outcome {
            Ok((t, e)) => {
                let out = t.clone();
                self.set_token(t, e);
                Ok(out)
            },
            Err(err) => Err(err),
        }
    }
}

/// The expiry of a token issued at `now` that lives `expires_in` seconds,
/// saturating at the largest timestamp.
pub fn expiry_from(now: u64, expires_in: u64) -> (r: u64)
    ensures
        r == if now + expires_in <= u64::MAX { (now + expires_in) as u64 } else { u64::MAX },
{
    now.saturating_add(expires_in)
}

} // verus!
