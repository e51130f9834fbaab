use std::sync::Arc;

use alloy_primitives::{Bytes, FixedBytes};
use alloy_rpc_types::{BlockId, BlockNumberOrTag, EthCallResponse, RpcBlockHash};
use alloy_transport::{RpcError, TransportError, TransportErrorKind};
use serde_json::value::RawValue;
use vstd::prelude::*;

use crate::layer::share;

verus! {

/// alloy-primitives' byte string, carried through unread.
#[verifier::external_type_specification]
#[verifier::external_body]
pub struct ExBytes(Bytes);

/// alloy-primitives' fixed-size byte array (a block hash), carried through
/// unread.
#[verifier::external_type_specification]
#[verifier::external_body]
pub struct ExFixedBytes<const N: usize>(FixedBytes<N>);

/// alloy-eips' block hash with its canonical flag; its public fields are read.
#[verifier::external_type_specification]
pub struct ExRpcBlockHash(RpcBlockHash);

/// alloy-eips' block number or tag (latest, finalized, safe, earliest,
/// pending, or a number).
#[verifier::external_type_specification]
pub struct ExBlockNumberOrTag(BlockNumberOrTag);

/// alloy-eips' block identifier: a hash or a number or tag.
#[verifier::external_type_specification]
pub struct ExBlockId(BlockId);

/// alloy-rpc-types-eth's outcome of one call of a batch: an optional output and
/// an optional error message, both public fields.
#[verifier::external_type_specification]
pub struct ExEthCallResponse(EthCallResponse);

/// serde_json's raw JSON text, which a transport error's type mentions.
#[verifier::external_type_specification]
#[verifier::external_body]
pub struct ExRawValue(RawValue);

/// alloy-transport's kinds of transport failure, carried through unread.
#[verifier::external_type_specification]
#[verifier::external_body]
pub struct ExTransportErrorKind(TransportErrorKind);

/// alloy-json-rpc's RPC error, of which a transport error is one form; carried
/// through unread.
#[verifier::external_type_specification]
#[verifier::external_body]
#[verifier::reject_recursive_types(E)]
#[verifier::reject_recursive_types(ErrResp)]
pub struct ExRpcError<E, ErrResp>(RpcError<E, ErrResp>);

/// The provider-facing form of a handler's result: a success is passed on
/// unchanged, and every failure becomes a transport error.
pub open spec fn lifted<T, E>(r: Result<T, E>, out: Result<T, TransportError>) -> bool {
    match r {
        Ok(v) => out == Ok::<T, TransportError>(v),
        Err(_) => out is Err,
    }
}

/// Relies on `TransportErrorKind::custom` of alloy-transport: it boxes the cause
/// into a custom transport error.
#[verifier::external_body]
fn custom_error<E: std::error::Error + Send + Sync + 'static>(e: E) -> TransportError {
    TransportErrorKind::custom(e)
}

/// Turns a handler's result into a provider result, wrapping a failure as an
/// opaque transport error that carries the handler's error as its cause.
pub fn into_transport<T, E: std::error::Error + Send + Sync + 'static>(r: Result<T, E>) -> (out:
    Result<T, TransportError>)
    ensures
        lifted(r, out),
{
    match r {
        Ok(v) => Ok(v),
        Err(e) => Err(custom_error(e)),
    }
}

/// The lookup that answers a block request: by hash or by number (or tag).
pub enum BlockQuery {
    ByHash(FixedBytes<32>),
    ByNumber(BlockNumberOrTag),
}

pub open spec fn block_query_of(id: BlockId) -> BlockQuery {
    match id {
        BlockId::Hash(h) => BlockQuery::ByHash(h.block_hash),
        BlockId::Number(n) => BlockQuery::ByNumber(n),
    }
}

/// Routes a block identifier to the hash lookup or to the number lookup.
pub fn block_query(id: BlockId) -> (q: BlockQuery)
    ensures
        q == block_query_of(id),
{
    match id {
        BlockId::Hash(h) => BlockQuery::ByHash(h.block_hash),
        BlockId::Number(n) => BlockQuery::ByNumber(n),
    }
}

/// `r` is the outcome of one call of a batch: its output when there is one,
/// else its error message, or "Unknown error" when it reports neither.
pub open spec fn call_outcome(resp: EthCallResponse, r: Result<Bytes, String>) -> bool {
    match resp.value {
        Some(b) => r == Ok::<Bytes, String>(b),
        None => r matches Err(e) && e@ == match resp.error {
            Some(m) => m@,
            None => "Unknown error"@,
        },
    }
}

/// Relies on `EthCallResponse::ensure_ok` of alloy-rpc-types-eth: the value when
/// present, else the error, else "Unknown error".
pub assume_specification[ EthCallResponse::ensure_ok ](this: EthCallResponse) -> (r: Result<
    Bytes,
    String,
>)
    ensures
        call_outcome(this, r),
;

/// Unwraps each response of a batched call on its own, so that one failed call
/// leaves the others' outputs in place.
pub fn collect_call_results(responses: Vec<EthCallResponse>) -> (r: Vec<Result<Bytes, String>>)
    ensures
        r.len() == responses.len(),
        forall|i: int| 0 <= i < r.len() ==> call_outcome(responses[i], #[trigger] r[i]),
{
    let mut rest = responses;
    let mut out: Vec<Result<Bytes, String>> = Vec::new();
    while rest.len() > 0
        invariant
            out.len() + rest.len() == responses.len(),
            rest@ == responses@.subrange(out.len() as int, responses.len() as int),
            forall|i: int| 0 <= i < out.len() ==> call_outcome(responses[i], #[trigger] out[i]),
        decreases rest.len(),
    {
        let resp = rest.remove(0);
        proof {
            assert(resp == responses[out.len() as int]);
        }
        out.push(resp.ensure_ok());
    }
    out
}

/// The provider operations that the adapter implements.
pub enum Operation {
    Root,
    StorageAt,
    Balance,
    Block,
    BlockByHash,
    CodeAt,
    Logs,
    Call,
    CallWithOverrides,
    CallMany,
}

/// Whether the adapter answers `op` itself, from the handler bundle: every read
/// query is, and only access to the transport root is passed on.
pub open spec fn intercepted(op: Operation) -> bool {
    !(op is Root)
}

/// What the adapter hands an operation to: the shared handler bundle, or the
/// wrapped provider.
pub enum Backend<'a, Handlers, P> {
    Handlers(Arc<Handlers>),
    Inner(&'a P),
}

/// The direct-call adapter: a shared handler bundle that answers the
/// intercepted read requests, and the wrapped provider that takes every other
/// request.
pub struct RethProvider<Handlers, P> {
    eth: Arc<Handlers>,
    inner: P,
}

impl<Handlers, P> RethProvider<Handlers, P> {
    /// The shared handler bundle.
    pub closed spec fn handlers(&self) -> Arc<Handlers> {
        self.eth
    }

    /// The wrapped provider.
    pub closed spec fn wrapped(&self) -> P {
        self.inner
    }

    pub fn new(eth: Arc<Handlers>, inner: P) -> (r: Self)
        ensures
            r.handlers() == eth,
            r.wrapped() == inner,
    {
        RethProvider { eth, inner }
    }

    /// The handler bundle that answers the intercepted requests.
    pub fn eth(&self) -> (r: &Handlers)
        ensures
            *r == *self.handlers(),
    {
        &self.eth
    }

    /// Decides who serves `op`: an intercepted operation gets the handler
    /// bundle and never the wrapped provider; any other gets the wrapped
    /// provider and never the bundle.
    pub fn backend(&self, op: Operation) -> (r: Backend<'_, Handlers, P>)
        ensures
            intercepted(op) ==> r == Backend::<Handlers, P>::Handlers(self.handlers()),
            !intercepted(op) ==> r == Backend::<Handlers, P>::Inner(&self.wrapped()),
    {
        match op {
            Operation::Root => Backend::Inner(&self.inner),
            _ => Backend::Handlers(share(&self.eth)),
        }
    }

    /// The wrapped provider, which takes every request that is not intercepted.
    pub fn inner(&self) -> (r: &P)
        ensures
            *r == self.wrapped(),
    {
        &self.inner
    }

    /// A second adapter over the same bundle and a copy of the wrapped
    /// provider handle.
    pub fn duplicate(&self) -> (r: Self) where P: Clone
        ensures
            r.handlers() == self.handlers(),
            call_ensures(P::clone, (&self.wrapped(),), r.wrapped()),
    {
        RethProvider { eth: share(&self.eth), inner: self.inner.clone() }
    }
}

} // verus!
