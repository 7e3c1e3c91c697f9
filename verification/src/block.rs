use vstd::prelude::*;
use kaspa_rpc_core::RpcRawBlock;

verus! {

#[verifier::external_type_specification]
#[verifier::external_body]
pub struct ExRpcRawBlock(RpcRawBlock);

/// The raw block template with the given nonce substituted into its header and
/// every other field kept as it was.  A pure function of the template and the
/// nonce.
pub uninterp spec fn raw_with_nonce(b: RpcRawBlock, nonce: u64) -> RpcRawBlock;

/// Relies on the derived `Clone` of kaspa_rpc_core's RpcRawHeader and on plain
/// field assignment: the result copies the template's header with only the
/// nonce field replaced, and carries the template's transactions unchanged.
#[verifier::external_body]
pub fn substitute_nonce(b: &RpcRawBlock, nonce: u64) -> (r: RpcRawBlock)
    ensures
        r == raw_with_nonce(*b, nonce),
{
    let mut header = b.header.clone();
    header.nonce = nonce;
    RpcRawBlock { header, transactions: b.transactions.clone() }
}

} // verus!
