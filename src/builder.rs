use vstd::prelude::*;

use crate::layer::RethLayer;

verus! {

/// The inert event source: nobody publishes on it, so a subscriber sees no
/// notification and no backlog.
#[derive(Clone, Copy, Debug, PartialEq, Eq, Structural)]
pub struct NoopCanonStateSubscriptions;

/// A consuming builder with five capability slots: state reader, transaction
/// pool, network information, task executor and event source.
///
/// Each `with_*` step replaces one slot and changes that slot's type, so which
/// capabilities have been supplied is a property of the builder's type.
pub struct RethLayerBuilder<Reth, Pool, Net, Tasks, Events> {
    provider: Reth,
    pool: Pool,
    network: Net,
    executor: Tasks,
    events: Events,
}

impl Default for RethLayerBuilder<(), (), (), (), ()> {
    /// A builder with every slot still empty.
    fn default() -> (r: Self)
        ensures
            r.slots() == ((), (), (), (), ()),
    {
        RethLayerBuilder { provider: (), pool: (), network: (), executor: (), events: () }
    }
}

impl<Reth, Pool, Net, Tasks, Events> RethLayerBuilder<Reth, Pool, Net, Tasks, Events> {
    /// The five slot occupants, in the order reader, pool, network, executor,
    /// events.
    pub closed spec fn slots(&self) -> (Reth, Pool, Net, Tasks, Events) {
        (self.provider, self.pool, self.network, self.executor, self.events)
    }

    pub fn new(provider: Reth, pool: Pool, network: Net, executor: Tasks, events: Events) -> (r: Self)
        ensures
            r.slots() == (provider, pool, network, executor, events),
    {
        RethLayerBuilder { provider, pool, network, executor, events }
    }

    /// Replaces the state reader.
    pub fn with_provider<P>(self, provider: P) -> (r: RethLayerBuilder<P, Pool, Net, Tasks, Events>)
        ensures
            r.slots() == (provider, self.slots().1, self.slots().2, self.slots().3, self.slots().4),
    {
        let RethLayerBuilder { pool, network, executor, events, .. } = self;
        RethLayerBuilder { provider, pool, network, executor, events }
    }

    /// Replaces the task executor.
    pub fn with_executor<T>(self, executor: T) -> (r: RethLayerBuilder<Reth, Pool, Net, T, Events>)
        ensures
            r.slots() == (self.slots().0, self.slots().1, self.slots().2, executor, self.slots().4),
    {
        let RethLayerBuilder { provider, pool, network, events, .. } = self;
        RethLayerBuilder { provider, pool, network, executor, events }
    }

    /// Replaces the transaction pool.
    pub fn with_pool<P>(self, pool: P) -> (r: RethLayerBuilder<Reth, P, Net, Tasks, Events>)
        ensures
            r.slots() == (self.slots().0, pool, self.slots().2, self.slots().3, self.slots().4),
    {
        let RethLayerBuilder { provider, network, executor, events, .. } = self;
        RethLayerBuilder { provider, pool, network, executor, events }
    }

    /// Replaces the network-information source.
    pub fn with_network<N>(self, network: N) -> (r: RethLayerBuilder<Reth, Pool, N, Tasks, Events>)
        ensures
            r.slots() == (self.slots().0, self.slots().1, network, self.slots().3, self.slots().4),
    {
        let RethLayerBuilder { provider, pool, executor, events, .. } = self;
        RethLayerBuilder { provider, pool, network, executor, events }
    }

    /// Replaces the event source.
    pub fn with_events<E>(self, events: E) -> (r: RethLayerBuilder<Reth, Pool, Net, Tasks, E>)
        ensures
            r.slots() == (self.slots().0, self.slots().1, self.slots().2, self.slots().3, events),
    {
        let RethLayerBuilder { provider, pool, network, executor, .. } = self;
        RethLayerBuilder { provider, pool, network, executor, events }
    }

    /// Fills the event slot with the inert event source.
    pub fn with_noop_events(self) -> (r: RethLayerBuilder<
        Reth,
        Pool,
        Net,
        Tasks,
        NoopCanonStateSubscriptions,
    >)
        ensures
            r.slots() == (
                self.slots().0,
                self.slots().1,
                self.slots().2,
                self.slots().3,
                NoopCanonStateSubscriptions,
            ),
    {
        let RethLayerBuilder { provider, pool, network, executor, .. } = self;
        RethLayerBuilder { provider, pool, network, executor, events: NoopCanonStateSubscriptions }
    }

    /// Finishes the builder: a layer over the same five slots whose handler
    /// bundle has not been built yet.
    pub fn into_layer<Handlers>(self) -> (r: RethLayer<Reth, Pool, Net, Tasks, Events, Handlers>)
        ensures
            r.wf(),
            r.slots() == self.slots(),
            r.cached() is None,
            r.builds() == 0,
    {
        let RethLayerBuilder { provider, pool, network, executor, events } = self;
        RethLayer::new(provider, pool, network, executor, events)
    }
}

} // verus!
