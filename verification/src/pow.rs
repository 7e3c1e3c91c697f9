use vstd::prelude::*;
use std::sync::Arc;
use kaspa_consensus_core::header::Header;
use kaspa_pow::State as PowState;

verus! {

#[verifier::external_type_specification]
#[verifier::external_body]
pub struct ExHeader(Header);

#[verifier::external_type_specification]
#[verifier::external_body]
pub struct ExPowState(PowState);

/// The proof-of-work evaluation context that `kaspa_pow::State::new` derives
/// from a block header.  It is a pure function of the header: the same header
/// always yields the same context.
pub uninterp spec fn pow_context_of(h: Header) -> PowState;

/// Whether the proof-of-work digest of this context at this nonce meets the
/// difficulty target, as `kaspa_pow::State::check_pow` decides it.  Pure in
/// the context and the nonce.
pub uninterp spec fn pow_passes(ctx: PowState, nonce: u64) -> bool;

/// Relies on kaspa_pow::State::new: the context is computed from the header
/// alone (target bits, pre-pow hash and timestamp), with no other input.
#[verifier::external_body]
pub fn build_pow_context(header: &Header) -> (ctx: Arc<PowState>)
    ensures
        *ctx == pow_context_of(*header),
{
    Arc::new(PowState::new(header))
}

/// Relies on kaspa_pow::State::check_pow: it hashes the context with the nonce
/// and compares the digest against the context's target, deterministically and
/// without side effects.  The digest itself is not kept, only the verdict.
#[verifier::external_body]
pub fn pow_check(ctx: &Arc<PowState>, nonce: u64) -> (passed: bool)
    ensures
        passed == pow_passes(**ctx, nonce),
{
    ctx.check_pow(nonce).0
}

} // verus!
