use vstd::prelude::*;
use std::sync::Arc;
use kaspa_consensus_core::header::Header;
use kaspa_pow::State as PowState;
use kaspa_rpc_core::RpcRawBlock;
use crate::block::{raw_with_nonce, substitute_nonce};
use crate::pow::{build_pow_context, pow_context_of};

verus! {

/// Relies on std's Arc::clone: the returned handle refers to the very same
/// value, nothing is copied or changed.
#[verifier::external_body]
fn share_arc<T>(p: &Arc<T>) -> (r: Arc<T>)
    ensures
        r == *p,
{
    Arc::clone(p)
}

/// One unit of mineable work: a sequence id, the raw template needed for
/// submission, and the proof-of-work evaluation context derived once from the
/// template's header.  Immutable once built; handles to it are shared across
/// all search threads.
pub struct Work {
    pub id: u64,
    pub raw: Arc<RpcRawBlock>,
    pub pow: Arc<PowState>,
}

impl Work {
    /// Assemble a work item from a fresh template: derive its evaluation
    /// context from the header and keep the raw block for submission.
    pub fn new(id: u64, header: &Header, raw: RpcRawBlock) -> (w: Work)
        ensures
            w.id == id,
            *w.raw == raw,
            *w.pow == pow_context_of(*header),
    {
        Work { id, raw: Arc::new(raw), pow: build_pow_context(header) }
    }

    /// A second handle to the same work: the handle is copied, not the
    /// contents.
    pub fn duplicate(&self) -> (w: Work)
        ensures
            w == *self,
    {
        let w = Work { id: self.id, raw: share_arc(&self.raw), pow: share_arc(&self.pow) };
        w
    }
}

/// A solved block awaiting submission: the work's raw template with the
/// winning nonce substituted, plus that nonce for reporting.
pub struct Candidate {
    pub nonce: u64,
    pub raw: RpcRawBlock,
}

impl Candidate {
    /// Build the block to submit from the work it was mined on.
    pub fn build(w: &Work, nonce: u64) -> (c: Candidate)
        ensures
            c.nonce == nonce,
            c.raw == raw_with_nonce(*w.raw, nonce),
    {
        Candidate { nonce, raw: substitute_nonce(&*w.raw, nonce) }
    }
}

} // verus!
