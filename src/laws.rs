use alloy_rpc_types::{BlockId, EthCallResponse};
use alloy_primitives::Bytes;
use alloy_transport::TransportError;
use vstd::prelude::*;

use crate::provider::{block_query_of, call_outcome, lifted, BlockQuery};

verus! {

/// In a batch of calls each outcome depends on its own response alone: a call
/// with output succeeds and a call without fails, whatever the others did.
pub proof fn lemma_call_batch_isolated(
    responses: Seq<EthCallResponse>,
    results: Seq<Result<Bytes, String>>,
)
    requires
        results.len() == responses.len(),
        forall|i: int| 0 <= i < results.len() ==> call_outcome(responses[i], #[trigger] results[i]),
    ensures
        forall|i: int|
            0 <= i < results.len() ==> (#[trigger] results[i] is Ok <==> responses[i].value is Some),
{
    assert forall|i: int| 0 <= i < results.len() implies (#[trigger] results[i] is Ok
        <==> responses[i].value is Some) by {
        assert(call_outcome(responses[i], results[i]));
    }
}

/// A hash identifier is looked up by hash and a number or tag by number, and a
/// lookup that finds no block is passed on as `None`, not as an error.
pub proof fn lemma_block_routing<T, E>(id: BlockId, out: Result<Option<T>, TransportError>)
    requires
        lifted(Ok::<Option<T>, E>(None), out),
    ensures
        id matches BlockId::Hash(h) ==> block_query_of(id) == BlockQuery::ByHash(h.block_hash),
        id matches BlockId::Number(n) ==> block_query_of(id) == BlockQuery::ByNumber(n),
        out == Ok::<Option<T>, TransportError>(None),
{
}

} // verus!
