use vstd::prelude::*;
use vstd::arithmetic::div_mod::lemma_fundamental_div_mod;
use crate::block::raw_with_nonce;
use crate::pow::pow_passes;
use crate::work::{Candidate, Work};

verus! {

/// Hash-count updates are batched: a worker touches the shared counter only
/// once per this many evaluations, not on every hash.
pub const BATCH_SIZE: u64 = 1000;

/// A worker re-checks for newer work and for shutdown after this many
/// evaluations since the last check.
pub const CHECK_WORK_INTERVAL: u64 = 200;

/// 64-bit addition that wraps around, as the nonce does when it runs off the
/// end of its space.
pub open spec fn wrap_add64(a: u64, b: u64) -> u64 {
    if a + b <= u64::MAX {
        (a + b) as u64
    } else {
        (a + b - 0x1_0000_0000_0000_0000) as u64
    }
}

/// The nonce a worker evaluates at its k-th step: starting from its own index
/// and advancing by the worker count each time, wrapping at the end of the
/// 64-bit space.  Worker i of n therefore scans i, i+n, i+2n, ...
pub open spec fn nonce_after(index: u64, step: u64, k: nat) -> u64
    decreases k,
{
    if k == 0 {
        index
    } else {
        wrap_add64(nonce_after(index, step, (k - 1) as nat), step)
    }
}

/// Before the progression wraps, the k-th nonce is exactly index + k * step.
pub proof fn lemma_nonce_after_no_wrap(index: u64, step: u64, k: nat)
    requires
        index + k * step <= u64::MAX,
    ensures
        nonce_after(index, step, k) == index + k * step,
    decreases k,
{
    if k == 0 {
        assert(k * step == 0) by (nonlinear_arith)
            requires k == 0;
    } else {
        assert((k - 1) * step + step == k * step) by (nonlinear_arith);
        assert((k - 1) * step >= 0) by (nonlinear_arith)
            requires k >= 1;
        lemma_nonce_after_no_wrap(index, step, (k - 1) as nat);
    }
}

/// Two distinct workers never evaluate the same nonce, as long as neither
/// progression has wrapped: the progressions are disjoint residue classes.
pub proof fn lemma_progressions_disjoint(count: u64, i: u64, j: u64, a: nat, b: nat)
    requires
        0 < count,
        i < count,
        j < count,
        i != j,
        i + a * count <= u64::MAX,
        j + b * count <= u64::MAX,
    ensures
        nonce_after(i, count, a) != nonce_after(j, count, b),
{
    lemma_nonce_after_no_wrap(i, count, a);
    lemma_nonce_after_no_wrap(j, count, b);
    if i + a * count == j + b * count {
        if a == b {
            assert(false);
        } else if a < b {
            assert(j + b * count >= j + (a + 1) * count) by (nonlinear_arith)
                requires b >= a + 1, count > 0, j >= 0;
            assert((a + 1) * count == a * count + count) by (nonlinear_arith);
            assert(false);
        } else {
            assert(i + a * count >= i + (b + 1) * count) by (nonlinear_arith)
                requires a >= b + 1, count > 0, i >= 0;
            assert((b + 1) * count == b * count + count) by (nonlinear_arith);
            assert(false);
        }
    }
}

/// A single worker never evaluates the same nonce twice before its
/// progression wraps: distinct steps give distinct nonces.
pub proof fn lemma_progression_injective(index: u64, count: u64, a: nat, b: nat)
    requires
        0 < count,
        a != b,
        index + a * count <= u64::MAX,
        index + b * count <= u64::MAX,
    ensures
        nonce_after(index, count, a) != nonce_after(index, count, b),
{
    lemma_nonce_after_no_wrap(index, count, a);
    lemma_nonce_after_no_wrap(index, count, b);
    assert(a * count != b * count) by (nonlinear_arith)
        requires a != b, count > 0;
}

/// No nonce is skipped: every nonce v is evaluated by worker v % count, at
/// step v / count of its progression.  Together with the disjointness above,
/// the workers partition the whole nonce space.
pub proof fn lemma_progression_covers(count: u64, v: u64)
    requires
        0 < count,
    ensures
        (v % count) < count,
        (v % count) + (v / count) * count == v,
        nonce_after(v % count, count, (v / count) as nat) == v,
{
    lemma_fundamental_div_mod(v as int, count as int);
    assert((v as int) == (count as int) * ((v as int) / (count as int)) + (v as int) % (
    count as int));
    assert((count as int) * ((v as int) / (count as int)) == ((v as int) / (count as int)) * (
    count as int)) by (nonlinear_arith);
    lemma_nonce_after_no_wrap(v % count, count, (v / count) as nat);
}

/// A nonce has exactly one possible finder: no worker other than v % count
/// ever evaluates the nonce v, at any step before its progression wraps.  So
/// a solution at a given nonce can only ever be produced once, by the one
/// worker that owns its residue class.
pub proof fn lemma_unique_finder(count: u64, v: u64, j: u64, k: nat)
    requires
        0 < count,
        j < count,
        j != v % count,
        j + k * count <= u64::MAX,
    ensures
        nonce_after(j, count, k) != v,
{
    lemma_progression_covers(count, v);
    lemma_progressions_disjoint(count, j, v % count, k, (v / count) as nat);
}

/// Why a scanning worker handed control back to its driver.  The driver acts
/// in this order: fold `flush` into the shared hash counter; submit `found`
/// if present; sleep once if `throttle` is set and a delay is configured;
/// and if `checkpoint` is set, read the shutdown flag and the register
/// version and answer through `checkpoint_result`.  A found solution is
/// answered through `found_result` instead.
pub struct ScanPause {
    /// A solution found at the last evaluated nonce, to submit.
    pub found: Option<Candidate>,
    /// Batched hash count to fold into the shared metrics now.
    pub flush: u64,
    /// The throttle cadence was reached.
    pub throttle: bool,
    /// Time for the coarse shutdown-and-new-work check.
    pub checkpoint: bool,
}

/// What to do after the coarse check at a checkpoint.
pub enum CheckpointVerdict {
    /// Nothing newer, no shutdown: scan on.
    Continue,
    /// Newer work was published: flush and go wait for it.
    Refetch { flush: u64 },
    /// Shutdown: flush and terminate.
    Exit { flush: u64 },
}

/// What to do after the quick version peek that follows a found solution.
pub enum AfterFound {
    /// Same work still current (or the peek could not be taken): keep
    /// scanning it; pause once first if a throttle delay is configured.
    Continue { throttle: bool },
    /// Newer work was published: go wait for it.
    Switch,
}

/// The per-thread scanning state of one search worker: its slot in the nonce
/// partition, the next nonce to try, and its batched counters.  The ghost
/// step and flush totals tie the executable counters to the nonce
/// progression: every evaluation is accounted for, none is lost and none is
/// double-counted.
pub struct WorkerScanState {
    /// This worker's index, fixed for the life of the pool.
    pub worker_index: u64,
    /// How many workers share the nonce space; also the nonce stride.
    pub worker_count: u64,
    /// The next nonce this worker will evaluate.
    pub nonce: u64,
    /// Evaluations not yet folded into the shared hash counter.
    pub local_hashes: u64,
    /// Evaluations since the last work check.
    pub since_check: u64,
    /// Whether a throttle delay is configured for this pool.
    pub throttled: bool,
    /// Total evaluations since this worker started.
    pub steps: Ghost<nat>,
    /// Total evaluations already handed out for the shared hash counter.
    pub flushed: Ghost<nat>,
}

impl WorkerScanState {
    pub open spec fn wf(self) -> bool {
        &&& 0 < self.worker_count
        &&& self.worker_index < self.worker_count
        &&& self.nonce == nonce_after(self.worker_index, self.worker_count, self.steps@)
        &&& self.flushed@ + self.local_hashes == self.steps@
        &&& self.local_hashes < BATCH_SIZE
        &&& self.since_check <= CHECK_WORK_INTERVAL
    }

    /// The slot and configuration fields never change after construction.
    pub open spec fn same_slot(self, other: WorkerScanState) -> bool {
        &&& self.worker_index == other.worker_index
        &&& self.worker_count == other.worker_count
        &&& self.throttled == other.throttled
    }

    pub fn new(worker_index: usize, worker_count: usize, throttled: bool) -> (st:
        WorkerScanState)
        requires
            0 < worker_count,
            worker_index < worker_count,
        ensures
            st.wf(),
            st.worker_index == worker_index as u64,
            st.worker_count == worker_count as u64,
            st.throttled == throttled,
            st.nonce == worker_index as u64,
            st.steps@ == 0,
            st.flushed@ == 0,
            st.local_hashes == 0,
            st.since_check == 0,
    {
        WorkerScanState {
            worker_index: worker_index as u64,
            worker_count: worker_count as u64,
            nonce: worker_index as u64,
            local_hashes: 0,
            since_check: 0,
            throttled,
            steps: Ghost(0),
            flushed: Ghost(0),
        }
    }

    /// Hand out every evaluation still held locally, so the shared total
    /// misses nothing at a transition boundary.
    pub fn drain(&mut self) -> (flush: u64)
        requires
            old(self).wf(),
        ensures
            final(self).wf(),
            old(self).same_slot(*final(self)),
            flush == old(self).local_hashes,
            final(self).local_hashes == 0,
            final(self).flushed@ == old(self).flushed@ + flush,
            final(self).steps@ == old(self).steps@,
            final(self).nonce == old(self).nonce,
            final(self).since_check == old(self).since_check,
    {
        let flush = self.local_hashes;
        self.local_hashes = 0;
        proof {
            self.flushed@ = self.flushed@ + flush as nat;
        }
        flush
    }

    /// Enter scanning on freshly received work: flush what is still held and
    /// restart the check cadence.  The nonce is not reset -- the worker keeps
    /// walking its own progression across work items.
    pub fn begin_work(&mut self) -> (flush: u64)
        requires
            old(self).wf(),
        ensures
            final(self).wf(),
            old(self).same_slot(*final(self)),
            flush == old(self).local_hashes,
            final(self).local_hashes == 0,
            final(self).flushed@ == old(self).flushed@ + flush,
            final(self).steps@ == old(self).steps@,
            final(self).nonce == old(self).nonce,
            final(self).since_check == 0,
    {
        let flush = self.drain();
        self.since_check = 0;
        flush
    }

    /// Scan the worker's nonce progression against `work` until something
    /// outside the hot loop must happen.  Every nonce evaluated by this call
    /// is the next element of the worker's progression; all of them missed
    /// the target except, when `found` is set, exactly the last one.
    pub fn scan(&mut self, work: &Work) -> (pause: ScanPause)
        requires
            old(self).wf(),
            old(self).since_check < CHECK_WORK_INTERVAL,
        ensures
            final(self).wf(),
            old(self).same_slot(*final(self)),
            final(self).steps@ > old(self).steps@,
            // every evaluation of this call except the last missed the target
            forall|k: nat|
                old(self).steps@ <= k < final(self).steps@ - 1 ==> !pow_passes(
                    *work.pow,
                    #[trigger] nonce_after(old(self).worker_index, old(self).worker_count, k),
                ),
            // the last evaluation passed exactly when a candidate is returned
            pause.found is Some <==> pow_passes(
                *work.pow,
                nonce_after(
                    old(self).worker_index,
                    old(self).worker_count,
                    (final(self).steps@ - 1) as nat,
                ),
            ),
            // the candidate carries that last nonce, substituted into the raw template
            match pause.found {
                Some(c) => {
                    &&& c.nonce == nonce_after(
                        old(self).worker_index,
                        old(self).worker_count,
                        (final(self).steps@ - 1) as nat,
                    )
                    &&& c.raw == raw_with_nonce(*work.raw, c.nonce)
                },
                None => true,
            },
            // accounting: what was handed out plus what is still held covers
            // every evaluation ever made
            final(self).flushed@ == old(self).flushed@ + pause.flush,
            final(self).flushed@ + final(self).local_hashes == final(self).steps@,
            // a found solution pauses before the cadence checks; otherwise the
            // flags say whether the cadence was reached
            pause.found is Some ==> !pause.throttle && !pause.checkpoint,
            pause.found is None ==> (pause.checkpoint <==> final(self).since_check
                >= CHECK_WORK_INTERVAL),
            pause.found is None ==> (pause.throttle <==> (final(self).throttled
                && final(self).since_check & 127 == 0)),
            // the driver can always scan again after answering the pause
            pause.found is None && !pause.checkpoint ==> final(self).since_check
                < CHECK_WORK_INTERVAL,
            // scanning never stops without a reason: every pause carries a
            // solution, a flush, a throttle tick or a checkpoint
            pause.found is None ==> (pause.flush > 0 || pause.throttle || pause.checkpoint),
    {
        loop
            invariant
                self.wf(),
                old(self).same_slot(*self),
                self.steps@ >= old(self).steps@,
                self.flushed@ == old(self).flushed@,
                self.local_hashes == old(self).local_hashes + self.steps@ - old(self).steps@,
                self.since_check == old(self).since_check + self.steps@ - old(self).steps@,
                self.since_check < CHECK_WORK_INTERVAL,
                forall|k: nat|
                    old(self).steps@ <= k < self.steps@ ==> !pow_passes(
                        *work.pow,
                        #[trigger] nonce_after(old(self).worker_index, old(self).worker_count, k),
                    ),
            decreases CHECK_WORK_INTERVAL - self.since_check,
        {
            self.local_hashes = self.local_hashes + 1;
            self.since_check = self.since_check + 1;
            let current = self.nonce;
            self.nonce = self.nonce.wrapping_add(self.worker_count);
            proof {
                self.steps@ = self.steps@ + 1;
            }

            let passed = crate::pow::pow_check(&work.pow, current);
            if passed {
                let flush = self.local_hashes;
                self.local_hashes = 0;
                proof {
                    self.flushed@ = self.flushed@ + flush as nat;
                }
                let candidate = Candidate::build(work, current);
                return ScanPause {
                    found: Some(candidate),
                    flush,
                    throttle: false,
                    checkpoint: false,
                };
            }

            let mut flush: u64 = 0;
            if self.local_hashes >= BATCH_SIZE {
                flush = self.local_hashes;
                self.local_hashes = 0;
                proof {
                    self.flushed@ = self.flushed@ + flush as nat;
                }
            }
            let throttle = self.throttled && (self.since_check & 127) == 0;
            let checkpoint = self.since_check >= CHECK_WORK_INTERVAL;
            if flush > 0 || throttle || checkpoint {
                return ScanPause { found: None, flush, throttle, checkpoint };
            }
        }
    }

    /// Answer the quick, non-blocking version peek made right after a found
    /// solution.  `peeked` is the register version if the peek could be
    /// taken, or nothing if the register was busy.
    pub fn found_result(&mut self, peeked: Option<u64>, last_seen: u64) -> (r: AfterFound)
        requires
            old(self).wf(),
        ensures
            final(self).wf(),
            old(self).same_slot(*final(self)),
            final(self).steps@ == old(self).steps@,
            final(self).flushed@ == old(self).flushed@,
            final(self).local_hashes == old(self).local_hashes,
            final(self).nonce == old(self).nonce,
            // switch exactly when the peek saw a version move
            r is Switch <==> (peeked matches Some(v) && v != last_seen),
            // otherwise the cadence restarts, throttling once if configured
            r matches AfterFound::Continue { throttle } ==> (final(self).since_check == 0
                && throttle == final(self).throttled),
    {
        let switch = match peeked {
            Some(v) => v != last_seen,
            None => false,
        };
        if switch {
            AfterFound::Switch
        } else {
            self.since_check = 0;
            AfterFound::Continue { throttle: self.throttled }
        }
    }

    /// Answer the coarse checkpoint: shutdown wins, then newer work, else
    /// scan on with the cadence restarted.  On either exit the remaining
    /// local count is handed out, so no evaluation is lost even on abrupt
    /// shutdown.
    pub fn checkpoint_result(&mut self, shutdown: bool, version: u64, last_seen: u64) -> (r:
        CheckpointVerdict)
        requires
            old(self).wf(),
        ensures
            final(self).wf(),
            old(self).same_slot(*final(self)),
            final(self).steps@ == old(self).steps@,
            final(self).nonce == old(self).nonce,
            shutdown ==> (r matches CheckpointVerdict::Exit { flush }
                && flush == old(self).local_hashes
                && final(self).local_hashes == 0
                && final(self).flushed@ == old(self).flushed@ + flush),
            !shutdown && version != last_seen ==> (r matches CheckpointVerdict::Refetch { flush }
                && flush == old(self).local_hashes
                && final(self).local_hashes == 0
                && final(self).flushed@ == old(self).flushed@ + flush),
            !shutdown && version == last_seen ==> r is Continue && final(self).since_check == 0
                && final(self).local_hashes == old(self).local_hashes && final(self).flushed@
                == old(self).flushed@,
    {
        if shutdown {
            let flush = self.drain();
            CheckpointVerdict::Exit { flush }
        } else if version != last_seen {
            let flush = self.drain();
            CheckpointVerdict::Refetch { flush }
        } else {
            self.since_check = 0;
            CheckpointVerdict::Continue
        }
    }
}

} // verus!
