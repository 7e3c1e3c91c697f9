use vstd::prelude::*;
use crate::work::Work;

verus! {

/// What a waiting worker is told when it asks the register for work newer than
/// the version it last saw.
pub enum PollOutcome {
    /// Nothing newer and no shutdown: keep blocking until woken.
    KeepWaiting,
    /// Shutdown was signaled and nothing newer exists: leave with no work.
    Exit,
    /// The version moved but nothing is published (only possible when the
    /// register is fresh and the caller carries a version from elsewhere):
    /// start over with version 0.
    NothingYet,
    /// Newer work exists: its version and a fresh handle to it.
    NewWork { version: u64, work: Work },
}

/// The single shared slot holding the current work, paired with a version
/// counter.  Version 0 means nothing has been published yet; every publish
/// installs new work and strictly increases the version, which gives all
/// published work a total order.
pub struct WorkRegister {
    version: u64,
    work: Option<Work>,
}

impl WorkRegister {
    /// The register holds work exactly from the first publish on.
    pub closed spec fn wf(self) -> bool {
        self.work is None <==> self.version == 0
    }

    pub closed spec fn spec_version(self) -> u64 {
        self.version
    }

    pub closed spec fn spec_work(self) -> Option<Work> {
        self.work
    }

    pub fn new() -> (r: WorkRegister)
        ensures
            r.wf(),
            r.spec_version() == 0,
            r.spec_work() is None,
    {
        WorkRegister { version: 0, work: None }
    }

    /// Install `work` as current and bump the version.  Every waiter is to be
    /// woken after this; the register itself only records the new state.
    pub fn publish(&mut self, work: Work)
        requires
            old(self).wf(),
            old(self).spec_version() < u64::MAX,
        ensures
            final(self).wf(),
            final(self).spec_version() == old(self).spec_version() + 1,
            final(self).spec_work() == Some(work),
    {
        self.version = self.version + 1;
        self.work = Some(work);
    }

    /// Non-blocking read of the version alone, for opportunistic staleness
    /// checks on the hot path.
    pub fn peek_version(&self) -> (v: u64)
        ensures
            v == self.spec_version(),
    {
        self.version
    }

    /// Decide what a worker that last saw `last_seen` should do now.  The
    /// caller blocks and asks again while this says to keep waiting; once
    /// shutdown is signaled it never says that, so no waiter stays blocked
    /// past a wake-up.  Whenever the version has moved, the current work is
    /// returned -- never any earlier work item.
    pub fn poll(&self, last_seen: u64, shutdown: bool) -> (r: PollOutcome)
        requires
            self.wf(),
        ensures
            match r {
                PollOutcome::KeepWaiting => {
                    self.spec_version() == last_seen && !shutdown
                },
                PollOutcome::Exit => {
                    self.spec_version() == last_seen && shutdown
                },
                PollOutcome::NothingYet => {
                    self.spec_version() != last_seen && self.spec_version() == 0
                },
                PollOutcome::NewWork { version, work } => {
                    &&& self.spec_version() != last_seen
                    &&& version == self.spec_version()
                    &&& self.spec_work() == Some(work)
                },
            },
    {
        if self.version == last_seen {
            if shutdown {
                PollOutcome::Exit
            } else {
                PollOutcome::KeepWaiting
            }
        } else {
            match &self.work {
                Some(w) => PollOutcome::NewWork { version: self.version, work: w.duplicate() },
                None => PollOutcome::NothingYet,
            }
        }
    }
}

/// Once shutdown is signaled, no waiter is told to keep waiting: every poll
/// under shutdown either leaves with nothing or leaves with the current work,
/// so a woken waiter returns instead of blocking again.
pub proof fn lemma_shutdown_unblocks(reg: WorkRegister, last_seen: u64, shutdown: bool, r: PollOutcome)
    requires
        reg.wf(),
        shutdown,
        // `r` is any outcome `poll` may return when shutdown is signaled
        match r {
            PollOutcome::KeepWaiting => reg.spec_version() == last_seen && !shutdown,
            PollOutcome::Exit => reg.spec_version() == last_seen && shutdown,
            PollOutcome::NothingYet => reg.spec_version() != last_seen && reg.spec_version()
                == 0,
            PollOutcome::NewWork { version, work } => {
                &&& reg.spec_version() != last_seen
                &&& version == reg.spec_version()
                &&& reg.spec_work() == Some(work)
            },
        },
    ensures
        !(r is KeepWaiting),
{
}

/// Publication order is total: once work with a later version is published,
/// a poll by any worker that has not yet seen that version returns exactly
/// the newly published work, never a superseded one.
pub proof fn lemma_poll_after_publish(
    before: WorkRegister,
    after: WorkRegister,
    w: Work,
    last_seen: u64,
    r: PollOutcome,
)
    requires
        before.wf(),
        before.spec_version() < u64::MAX,
        // `after` is the register as `publish(w)` leaves it
        after.wf(),
        after.spec_version() == before.spec_version() + 1,
        after.spec_work() == Some(w),
        // the worker has not seen the new version
        last_seen != after.spec_version(),
        // `r` is any outcome `poll` may return on `after`
        match r {
            PollOutcome::KeepWaiting => after.spec_version() == last_seen,
            PollOutcome::Exit => after.spec_version() == last_seen,
            PollOutcome::NothingYet => after.spec_version() == 0,
            PollOutcome::NewWork { version, work } => {
                &&& after.spec_version() != last_seen
                &&& version == after.spec_version()
                &&& after.spec_work() == Some(work)
            },
        },
    ensures
        r matches PollOutcome::NewWork { version, work } && version == after.spec_version()
            && work == w,
{
}

} // verus!
