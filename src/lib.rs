//! Assembles optional chain-node capabilities into a lazily built bundle of
//! request handlers, and answers provider requests from that bundle instead of
//! sending them over a transport.

mod builder;
mod laws;
mod layer;
mod provider;

pub use builder::{NoopCanonStateSubscriptions, RethLayerBuilder};
pub use laws::{lemma_block_routing, lemma_call_batch_isolated};
pub use layer::{
    accessed, lemma_bundle_built_once, lemma_retransformed_layer_rebuilds, RethLayer,
};
pub use provider::{
    block_query, block_query_of, call_outcome, collect_call_results, intercepted, into_transport,
    lifted, Backend, BlockQuery, Operation, RethProvider,
};
