use vstd::prelude::*;
use crate::metrics::CpuMinerMetrics;

verus! {

/// How submitting one candidate to the node ended.
#[derive(Clone, Copy, PartialEq, Eq, Structural, Debug)]
pub enum SubmitOutcome {
    /// The node reported success.
    Accepted,
    /// The node answered but did not accept the block (stale work, say).
    Rejected,
    /// The call itself failed; the candidate is dropped, not retried.
    TransportFailed,
}

/// Record one drained candidate's fate in the shared metrics.  Every answer
/// from the node counts as an attempted submission; only an accepting answer
/// counts as an accepted block; a transport failure counts as neither.  The
/// hash counter is untouched, and no counter ever decreases.
pub fn record_submission(m: &mut CpuMinerMetrics, outcome: SubmitOutcome)
    ensures
        final(m).hashes_tried == old(m).hashes_tried,
        outcome != SubmitOutcome::TransportFailed ==> final(m).blocks_submitted == (if old(
            m,
        ).blocks_submitted < u64::MAX {
            old(m).blocks_submitted + 1
        } else {
            u64::MAX as int
        }),
        outcome == SubmitOutcome::TransportFailed ==> final(m).blocks_submitted == old(
            m,
        ).blocks_submitted,
        outcome == SubmitOutcome::Accepted ==> final(m).blocks_accepted == (if old(
            m,
        ).blocks_accepted < u64::MAX {
            old(m).blocks_accepted + 1
        } else {
            u64::MAX as int
        }),
        outcome != SubmitOutcome::Accepted ==> final(m).blocks_accepted == old(m).blocks_accepted,
        old(m).le(*final(m)),
{
    match outcome {
        SubmitOutcome::Accepted => {
            m.blocks_submitted = m.blocks_submitted.saturating_add(1);
            m.blocks_accepted = m.blocks_accepted.saturating_add(1);
        },
        SubmitOutcome::Rejected => {
            m.blocks_submitted = m.blocks_submitted.saturating_add(1);
        },
        SubmitOutcome::TransportFailed => {},
    }
}

} // verus!
