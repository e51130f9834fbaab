use std::sync::Arc;

use vstd::prelude::*;

use crate::builder::NoopCanonStateSubscriptions;
use crate::provider::RethProvider;

verus! {

/// Relies on `Arc::clone`: the new handle points at the same allocation, so it
/// holds the same value.
#[verifier::external_body]
pub(crate) fn share<T>(a: &Arc<T>) -> (r: Arc<T>)
    ensures
        r == *a,
{
    Arc::clone(a)
}

/// The five capability slots and a once-filled cell for the handler bundle
/// derived from them.
///
/// The cell is filled by the first call of [`RethLayer::eth_handlers`] and
/// never refilled; every `with_*` step yields a new layer with an empty cell.
pub struct RethLayer<Reth, Pool, Net, Tasks, Events, Handlers> {
    provider: Reth,
    pool: Pool,
    network: Net,
    executor: Tasks,
    events: Events,
    eth: Option<Arc<Handlers>>,
    /// How many times a bundle has been built for this layer.
    builds: Ghost<nat>,
}

/// One access to the bundle cell, from `before` to `after`, returning `r`: the
/// slots stay, the cell then holds `r`; a bundle already there is returned as
/// it is and nothing is built; otherwise exactly one bundle is built.
pub open spec fn accessed<Reth, Pool, Net, Tasks, Events, Handlers>(
    before: RethLayer<Reth, Pool, Net, Tasks, Events, Handlers>,
    after: RethLayer<Reth, Pool, Net, Tasks, Events, Handlers>,
    r: Arc<Handlers>,
) -> bool {
    &&& after.wf()
    &&& after.slots() == before.slots()
    &&& after.cached() == Some(r)
    &&& match before.cached() {
        Some(h) => r == h && after.builds() == before.builds(),
        None => after.builds() == before.builds() + 1,
    }
}

proof fn lemma_accesses_share_first<Reth, Pool, Net, Tasks, Events, Handlers>(
    states: Seq<RethLayer<Reth, Pool, Net, Tasks, Events, Handlers>>,
    results: Seq<Arc<Handlers>>,
    k: int,
)
    requires
        states.len() == results.len() + 1,
        0 <= k < results.len(),
        forall|i: int|
            0 <= i < results.len() ==> accessed(states[i], #[trigger] states[i + 1], results[i]),
    ensures
        forall|i: int| 0 <= i <= k ==> #[trigger] results[i] == results[0],
    decreases k,
{
    if k > 0 {
        lemma_accesses_share_first(states, results, k - 1);
        assert(accessed(states[k - 1], states[(k - 1) + 1], results[k - 1]));
        assert(accessed(states[k], states[k + 1], results[k]));
    }
}

/// However many times a layer's bundle is asked for, one after another, it is
/// built at most once, and every access returns the same shared bundle.
pub proof fn lemma_bundle_built_once<Reth, Pool, Net, Tasks, Events, Handlers>(
    states: Seq<RethLayer<Reth, Pool, Net, Tasks, Events, Handlers>>,
    results: Seq<Arc<Handlers>>,
)
    requires
        states.len() == results.len() + 1,
        states[0].wf(),
        forall|i: int|
            0 <= i < results.len() ==> accessed(states[i], #[trigger] states[i + 1], results[i]),
    ensures
        forall|i: int| 0 <= i < results.len() ==> #[trigger] results[i] == results[0],
        forall|i: int| 0 <= i < states.len() ==> #[trigger] states[i].builds() <= 1,
{
    if results.len() > 0 {
        lemma_accesses_share_first(states, results, results.len() - 1);
    }
    assert forall|i: int| 0 <= i < states.len() implies #[trigger] states[i].builds() <= 1 by {
        if i > 0 {
            assert(accessed(states[i - 1], states[(i - 1) + 1], results[i - 1]));
        }
    }
}

/// A layer that a `with_*` step has just produced holds no bundle, so its first
/// access builds one of its own instead of reusing an earlier layer's.
pub proof fn lemma_retransformed_layer_rebuilds<Reth, Pool, Net, Tasks, Events, Handlers>(
    fresh: RethLayer<Reth, Pool, Net, Tasks, Events, Handlers>,
    after: RethLayer<Reth, Pool, Net, Tasks, Events, Handlers>,
    r: Arc<Handlers>,
)
    requires
        fresh.wf(),
        fresh.cached() is None,
        accessed(fresh, after, r),
    ensures
        fresh.builds() == 0,
        after.builds() == 1,
        after.cached() == Some(r),
{
}

impl<Handlers> Default for RethLayer<(), (), (), (), (), Handlers> {
    /// A layer with every slot still empty and no bundle.
    fn default() -> (r: Self)
        ensures
            r.wf(),
            r.slots() == ((), (), (), (), ()),
            r.cached() is None,
            r.builds() == 0,
    {
        RethLayer::new((), (), (), (), ())
    }
}

impl<Reth, Pool, Net, Tasks, Events, Handlers> RethLayer<Reth, Pool, Net, Tasks, Events, Handlers> {
    /// The five slot occupants, in the order reader, pool, network, executor,
    /// events.
    pub closed spec fn slots(&self) -> (Reth, Pool, Net, Tasks, Events) {
        (self.provider, self.pool, self.network, self.executor, self.events)
    }

    /// The bundle held by the cell, if one has been built.
    pub closed spec fn cached(&self) -> Option<Arc<Handlers>> {
        self.eth
    }

    /// How many bundles have been built for this layer.
    pub closed spec fn builds(&self) -> nat {
        self.builds@
    }

    /// A bundle has been built exactly when the cell is filled, and then once.
    pub closed spec fn wf(&self) -> bool {
        self.builds@ == if self.eth is Some { 1nat } else { 0nat }
    }

    /// A layer over the given slots with an empty cell.
    pub fn new(provider: Reth, pool: Pool, network: Net, executor: Tasks, events: Events) -> (r: Self)
        ensures
            r.wf(),
            r.slots() == (provider, pool, network, executor, events),
            r.cached() is None,
            r.builds() == 0,
    {
        RethLayer { provider, pool, network, executor, events, eth: None, builds: Ghost(0) }
    }

    /// The handler bundle, built by `build` from the slots on the first call
    /// and shared by every later one.
    pub fn eth_handlers<F>(&mut self, build: F) -> (r: Arc<Handlers>) where
        F: FnOnce(&Reth, &Pool, &Net, &Tasks, &Events) -> Handlers,
        requires
            old(self).wf(),
            old(self).cached() is None ==> build.requires(
                (
                    &old(self).slots().0,
                    &old(self).slots().1,
                    &old(self).slots().2,
                    &old(self).slots().3,
                    &old(self).slots().4,
                ),
            ),
        ensures
            accessed(*old(self), *final(self), r),
            old(self).cached() is None ==> build.ensures(
                (
                    &old(self).slots().0,
                    &old(self).slots().1,
                    &old(self).slots().2,
                    &old(self).slots().3,
                    &old(self).slots().4,
                ),
                *r,
            ),
    {
        match &self.eth {
            Some(h) => share(h),
            None => {
                let h = Arc::new(
                    build(&self.provider, &self.pool, &self.network, &self.executor, &self.events),
                );
                self.eth = Some(share(&h));
                self.builds = Ghost(self.builds@ + 1);
                h
            },
        }
    }

    /// Wraps `inner` in a direct-call adapter over this layer's handler bundle,
    /// building the bundle with `build` if this is the first access.
    pub fn layer<P, F>(&mut self, inner: P, build: F) -> (r: RethProvider<Handlers, P>) where
        F: FnOnce(&Reth, &Pool, &Net, &Tasks, &Events) -> Handlers,
        requires
            old(self).wf(),
            old(self).cached() is None ==> build.requires(
                (
                    &old(self).slots().0,
                    &old(self).slots().1,
                    &old(self).slots().2,
                    &old(self).slots().3,
                    &old(self).slots().4,
                ),
            ),
        ensures
            accessed(*old(self), *final(self), r.handlers()),
            r.wrapped() == inner,
            old(self).cached() is None ==> build.ensures(
                (
                    &old(self).slots().0,
                    &old(self).slots().1,
                    &old(self).slots().2,
                    &old(self).slots().3,
                    &old(self).slots().4,
                ),
                *r.handlers(),
            ),
    {
        let eth = self.eth_handlers(build);
        RethProvider::new(eth, inner)
    }

    /// Replaces the state reader; the new layer starts without a bundle.
    pub fn with_provider<P>(self, provider: P) -> (r: RethLayer<P, Pool, Net, Tasks, Events, Handlers>)
        ensures
            r.wf(),
            r.slots() == (provider, self.slots().1, self.slots().2, self.slots().3, self.slots().4),
            r.cached() is None,
            r.builds() == 0,
    {
        let RethLayer { pool, network, executor, events, .. } = self;
        RethLayer::new(provider, pool, network, executor, events)
    }

    /// Replaces the task executor; the new layer starts without a bundle.
    pub fn with_executor<T>(self, executor: T) -> (r: RethLayer<Reth, Pool, Net, T, Events, Handlers>)
        ensures
            r.wf(),
            r.slots() == (self.slots().0, self.slots().1, self.slots().2, executor, self.slots().4),
            r.cached() is None,
            r.builds() == 0,
    {
        let RethLayer { provider, pool, network, events, .. } = self;
        RethLayer::new(provider, pool, network, executor, events)
    }

    /// Replaces the transaction pool; the new layer starts without a bundle.
    pub fn with_pool<P>(self, pool: P) -> (r: RethLayer<Reth, P, Net, Tasks, Events, Handlers>)
        ensures
            r.wf(),
            r.slots() == (self.slots().0, pool, self.slots().2, self.slots().3, self.slots().4),
            r.cached() is None,
            r.builds() == 0,
    {
        let RethLayer { provider, network, executor, events, .. } = self;
        RethLayer::new(provider, pool, network, executor, events)
    }

    /// Replaces the network-information source; the new layer starts without a
    /// bundle.
    pub fn with_network<N>(self, network: N) -> (r: RethLayer<Reth, Pool, N, Tasks, Events, Handlers>)
        ensures
            r.wf(),
            r.slots() == (self.slots().0, self.slots().1, network, self.slots().3, self.slots().4),
            r.cached() is None,
            r.builds() == 0,
    {
        let RethLayer { provider, pool, executor, events, .. } = self;
        RethLayer::new(provider, pool, network, executor, events)
    }

    /// Replaces the event source; the new layer starts without a bundle.
    pub fn with_events<E>(self, events: E) -> (r: RethLayer<Reth, Pool, Net, Tasks, E, Handlers>)
        ensures
            r.wf(),
            r.slots() == (self.slots().0, self.slots().1, self.slots().2, self.slots().3, events),
            r.cached() is None,
            r.builds() == 0,
    {
        let RethLayer { provider, pool, network, executor, .. } = self;
        RethLayer::new(provider, pool, network, executor, events)
    }

    /// Fills the event slot with the inert event source; the new layer starts
    /// without a bundle.
    pub fn with_noop_events(self) -> (r: RethLayer<
        Reth,
        Pool,
        Net,
        Tasks,
        NoopCanonStateSubscriptions,
        Handlers,
    >)
        ensures
            r.wf(),
            r.slots() == (
                self.slots().0,
                self.slots().1,
                self.slots().2,
                self.slots().3,
                NoopCanonStateSubscriptions,
            ),
            r.cached() is None,
            r.builds() == 0,
    {
        let RethLayer { provider, pool, network, executor, .. } = self;
        RethLayer::new(provider, pool, network, executor, NoopCanonStateSubscriptions)
    }
}

} // verus!
