use vstd::prelude::*;

verus! {

/// The three instrumentation counters of the mining engine: hashes attempted,
/// blocks handed to the node, blocks the node accepted.  Counters only ever
/// grow while the engine runs; a new engine starts them at zero.
#[derive(Clone, Copy, PartialEq, Eq, Structural, Debug)]
pub struct CpuMinerMetrics {
    pub hashes_tried: u64,
    pub blocks_submitted: u64,
    pub blocks_accepted: u64,
}

impl CpuMinerMetrics {
    /// Counter-wise ordering: `self` is no later snapshot than `other`.
    pub open spec fn le(self, other: CpuMinerMetrics) -> bool {
        &&& self.hashes_tried <= other.hashes_tried
        &&& self.blocks_submitted <= other.blocks_submitted
        &&& self.blocks_accepted <= other.blocks_accepted
    }

    pub open spec fn is_zero(self) -> bool {
        self.hashes_tried == 0 && self.blocks_submitted == 0 && self.blocks_accepted == 0
    }

    /// A fresh metrics set: every counter starts at zero.
    pub fn new() -> (m: CpuMinerMetrics)
        ensures
            m.is_zero(),
    {
        CpuMinerMetrics { hashes_tried: 0, blocks_submitted: 0, blocks_accepted: 0 }
    }

    /// Fold a worker's batched hash count into the shared total.  The total
    /// saturates rather than wrap, so it never decreases.
    pub fn record_hashes(&mut self, n: u64)
        ensures
            final(self).hashes_tried == if old(self).hashes_tried + n <= u64::MAX {
                old(self).hashes_tried + n
            } else {
                u64::MAX as int
            },
            final(self).blocks_submitted == old(self).blocks_submitted,
            final(self).blocks_accepted == old(self).blocks_accepted,
            old(self).le(*final(self)),
    {
        self.hashes_tried = self.hashes_tried.saturating_add(n);
    }

    /// Read all three counters at once.
    pub fn snapshot(&self) -> (m: CpuMinerMetrics)
        ensures
            m == *self,
    {
        *self
    }
}

impl Default for CpuMinerMetrics {
    /// Same as `new`: every counter at zero.
    fn default() -> (m: CpuMinerMetrics)
        ensures
            m.is_zero(),
    {
        CpuMinerMetrics::new()
    }
}

/// Metrics are monotonic: the counter-wise order on snapshots is reflexive and
/// transitive, so any snapshot taken later in a run dominates any earlier one,
/// however many increments lie between them.
pub proof fn lemma_metrics_monotonic(a: CpuMinerMetrics, b: CpuMinerMetrics, c: CpuMinerMetrics)
    requires
        a.le(b),
        b.le(c),
    ensures
        a.le(c),
        a.le(a),
{
}

/// The same over a whole run: in any trace of snapshots in which each step is
/// non-decreasing -- as every mutating operation here guarantees -- any two
/// snapshots taken in order are themselves ordered.
pub proof fn lemma_metrics_trace(trace: Seq<CpuMinerMetrics>, i: int, j: int)
    requires
        forall|k: int| #![trigger trace[k]] 0 <= k < trace.len() - 1 ==> trace[k].le(trace[k + 1]),
        0 <= i <= j < trace.len(),
    ensures
        trace[i].le(trace[j]),
    decreases j - i,
{
    if i < j {
        lemma_metrics_trace(trace, i, j - 1);
        assert(trace[j - 1].le(trace[j]));
    }
}

} // verus!
