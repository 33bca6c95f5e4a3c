//! The one cached endpoint that all senders share.
//!
//! The cache itself knows no lock. Whoever shares it between callers keeps it
//! behind one, holds the lock for the length of a single call here, and lets
//! go before talking to the endpoint.

use vstd::prelude::*;
use crate::resolver::ResolutionError;
use crate::wire::PORT_NULL;

verus! {

/// The last resolved endpoint and whether it may still be used.
pub struct ConnectionCache {
    endpoint: u32,
    fresh: bool,
}

/// What a cache holds after it has taken in the result of a resolution.
pub open spec fn filled_by(resolved: Result<u32, ResolutionError>) -> Option<u32> {
    match resolved {
        Ok(endpoint) => if endpoint != PORT_NULL {
            Some(endpoint)
        } else {
            None
        },
        Err(_) => None,
    }
}

/// What one caller sees and leaves behind.
pub struct Lookup {
    /// The cache after the call.
    pub cache: Option<u32>,
    /// What the caller is handed.
    pub endpoint: Result<u32, ResolutionError>,
    /// Whether the resolver was asked.
    pub resolved: bool,
}

/// One call of `get_or_resolve` on a cache, where the resolver, if asked,
/// answers `answer`.
pub open spec fn lookup(cache: Option<u32>, answer: Result<u32, ResolutionError>) -> Lookup {
    match cache {
        Some(endpoint) => Lookup { cache, endpoint: Ok(endpoint), resolved: false },
        None => Lookup { cache: filled_by(answer), endpoint: answer, resolved: true },
    }
}

/// What a row of callers sees, one after the other.
pub struct Served {
    pub cache: Option<u32>,
    pub endpoints: Seq<Result<u32, ResolutionError>>,
    /// How often the resolver was asked.
    pub resolutions: nat,
}

/// The callers of a shared cache, taken in the order in which they get hold
/// of it. `answers[i]` is what the resolver would answer the caller at `i`.
pub open spec fn serve(cache: Option<u32>, answers: Seq<Result<u32, ResolutionError>>) -> Served
    decreases answers.len(),
{
    if answers.len() == 0 {
        Served { cache, endpoints: Seq::empty(), resolutions: 0 }
    } else {
        let first = lookup(cache, answers.first());
        let rest = serve(first.cache, answers.drop_first());
        Served {
            cache: rest.cache,
            endpoints: seq![first.endpoint] + rest.endpoints,
            resolutions: if first.resolved {
                1 + rest.resolutions
            } else {
                rest.resolutions
            },
        }
    }
}

impl View for ConnectionCache {
    type V = Option<u32>;

    /// The endpoint that the cache vouches for, if any.
    closed spec fn view(&self) -> Option<u32> {
        if self.fresh {
            Some(self.endpoint)
        } else {
            None
        }
    }
}

impl ConnectionCache {
    /// An unresolved slot never keeps an endpoint, and the null endpoint is
    /// never fresh.
    #[verifier::type_invariant]
    spec fn well_formed(self) -> bool {
        self.fresh <==> self.endpoint != PORT_NULL
    }

    /// An empty cache.
    pub fn new() -> (cache: ConnectionCache)
        ensures
            cache@ is None,
    {
        ConnectionCache { endpoint: PORT_NULL, fresh: false }
    }

    /// The cached endpoint, if the cache vouches for one. It is never the
    /// null endpoint.
    pub fn get(&self) -> (endpoint: Option<u32>)
        ensures
            endpoint == self@,
            endpoint != Some(PORT_NULL),
    {
        proof {
            use_type_invariant(self);
        }
        if self.fresh {
            Some(self.endpoint)
        } else {
            None
        }
    }

    /// Takes in a resolved endpoint. The null endpoint leaves the cache
    /// unresolved.
    pub fn store(&mut self, endpoint: u32)
        ensures
            final(self)@ == filled_by(Ok(endpoint)),
    {
        *self = ConnectionCache { endpoint, fresh: endpoint != PORT_NULL };
    }

    /// Clears the cache back to unresolved, whatever it held.
    pub fn invalidate(&mut self)
        ensures
            final(self)@ is None,
    {
        *self = ConnectionCache { endpoint: PORT_NULL, fresh: false };
    }

    /// The cached endpoint if there is one; else whatever `resolve` makes of
    /// `name`, which is cached where it is an endpoint. `resolve` is called
    /// at most once, and only on a miss.
    pub fn get_or_resolve<F>(&mut self, name: &str, resolve: F) -> (endpoint: Result<
        u32,
        ResolutionError,
    >) where F: FnOnce(&str) -> Result<u32, ResolutionError>
        requires
            old(self)@ is None ==> call_requires(resolve, (name,)),
        ensures
            lookup(old(self)@, endpoint) == (Lookup {
                cache: final(self)@,
                endpoint,
                resolved: old(self)@ is None,
            }),
            old(self)@ is None ==> call_ensures(resolve, (name,), endpoint),
    {
        match self.get() {
            Some(endpoint) => Ok(endpoint),
            None => {
                let resolved = resolve(name);
                match resolved {
                    Ok(endpoint) => {
                        self.store(endpoint);
                    },
                    Err(_) => {},
                }
                resolved
            },
        }
    }
}

/// When the endpoint was last refreshed and how long a refresh stays good.
/// Times are seconds on a clock that never runs backwards.
pub struct PortState {
    last_refresh: u64,
    refresh_interval: u64,
}

/// The endpoint could not be refreshed.
#[derive(Clone, Copy, Debug, PartialEq, Eq, Structural)]
pub struct RefreshFailed;

/// A refresh stays good for five minutes.
pub const REFRESH_INTERVAL_SECS: u64 = 300;

pub struct PortStateView {
    pub last_refresh: u64,
    pub refresh_interval: u64,
}

impl PortStateView {
    /// A refresh is due once the interval has passed since the last one.
    pub open spec fn due(self, now: u64) -> bool {
        now >= self.last_refresh && now - self.last_refresh >= self.refresh_interval
    }
}

impl View for PortState {
    type V = PortStateView;

    closed spec fn view(&self) -> PortStateView {
        PortStateView { last_refresh: self.last_refresh, refresh_interval: self.refresh_interval }
    }
}

impl PortState {
    /// A state whose endpoint counts as refreshed at `now`.
    pub fn new(now: u64) -> (state: PortState)
        ensures
            state@ == (PortStateView {
                last_refresh: now,
                refresh_interval: REFRESH_INTERVAL_SECS,
            }),
    {
        PortState { last_refresh: now, refresh_interval: REFRESH_INTERVAL_SECS }
    }

    /// Whether the endpoint is to be refreshed before it is used at `now`.
    pub fn refresh_due(&self, now: u64) -> (due: bool)
        ensures
            due == self@.due(now),
    {
        now >= self.last_refresh && now - self.last_refresh >= self.refresh_interval
    }

    /// Takes in what came of a refresh at `now`: a refresh that worked counts
    /// from `now`, one that failed changes nothing and is reported.
    pub fn refreshed(&mut self, now: u64, worked: bool) -> (result: Result<(), RefreshFailed>)
        ensures
            worked ==> result is Ok && final(self)@ == (PortStateView {
                last_refresh: now,
                ..old(self)@
            }),
            !worked ==> result is Err,
            !worked ==> final(self)@ == old(self)@,
    {
        if worked {
            self.last_refresh = now;
            Ok(())
        } else {
            Err(RefreshFailed)
        }
    }
}

/// On a cache that holds an endpoint, no caller asks the resolver, every
/// caller is handed that endpoint, and the cache keeps it.
pub proof fn law_valid_cache_serves_all(endpoint: u32, answers: Seq<Result<u32, ResolutionError>>)
    ensures
        serve(Some(endpoint), answers).resolutions == 0,
        serve(Some(endpoint), answers).cache == Some(endpoint),
        serve(Some(endpoint), answers).endpoints.len() == answers.len(),
        forall|i: int|
            0 <= i < answers.len() ==> #[trigger] serve(Some(endpoint), answers).endpoints[i]
                == Ok::<u32, ResolutionError>(endpoint),
    decreases answers.len(),
{
    if answers.len() > 0 {
        law_valid_cache_serves_all(endpoint, answers.drop_first());
    }
}

/// Any number of callers that meet an empty cache one after the other, while
/// the service is registered, cause exactly one resolution: the first caller
/// fills the cache and all are handed the endpoint that it found.
pub proof fn law_one_resolution_fills_cache(answers: Seq<Result<u32, ResolutionError>>)
    requires
        answers.len() > 0,
        forall|i: int|
            0 <= i < answers.len() ==> (#[trigger] answers[i]) is Ok && answers[i]->Ok_0
                != PORT_NULL,
    ensures
        serve(None, answers).resolutions == 1,
        serve(None, answers).cache == Some(answers[0]->Ok_0),
        serve(None, answers).endpoints.len() == answers.len(),
        forall|i: int|
            0 <= i < answers.len() ==> #[trigger] serve(None, answers).endpoints[i] == answers[0],
{
    law_valid_cache_serves_all(answers[0]->Ok_0, answers.drop_first());
}

} // verus!
