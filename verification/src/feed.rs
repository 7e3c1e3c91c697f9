use vstd::prelude::*;

verus! {

/// How many attempts one fetch cycle may make before the cycle is abandoned
/// and the previous work stays current.
pub const MAX_FETCH_ATTEMPTS: u8 = 3;

/// The template feed's persistent state: the sequence id the next published
/// work will carry.  Ids start at 0, strictly increase, and are never reused
/// while the engine runs.
pub struct TemplateFeed {
    next_id: u64,
}

impl TemplateFeed {
    pub closed spec fn spec_next_id(self) -> u64 {
        self.next_id
    }

    pub fn new() -> (f: TemplateFeed)
        ensures
            f.spec_next_id() == 0,
    {
        TemplateFeed { next_id: 0 }
    }

    /// The id the next published work would carry.
    pub fn next_id(&self) -> (id: u64)
        ensures
            id == self.spec_next_id(),
    {
        self.next_id
    }

    /// Hand out the id for a freshly fetched template.  Each call returns a
    /// strictly larger id than any earlier call, so published work is totally
    /// ordered and no id is ever reused.
    pub fn assign_id(&mut self) -> (id: u64)
        requires
            old(self).spec_next_id() < u64::MAX,
        ensures
            id == old(self).spec_next_id(),
            final(self).spec_next_id() == old(self).spec_next_id() + 1,
    {
        let id = self.next_id;
        self.next_id = self.next_id + 1;
        id
    }
}

/// What the feed does after a failed fetch or conversion attempt.
pub enum FetchDecision {
    /// Try again within the same cycle after this pause.
    RetryAfterMillis { millis: u64 },
    /// Give the cycle up; the previously published work stays current.
    Abandon,
}

/// One template fetch cycle: up to `MAX_FETCH_ATTEMPTS` attempts, ending
/// either in a single publish or in abandonment.  A cycle that has concluded
/// takes no further attempts, so each cycle publishes at most once, and never
/// on a failed attempt.
pub struct FetchCycle {
    attempts_failed: u8,
    concluded: bool,
}

impl FetchCycle {
    pub closed spec fn spec_attempts_failed(self) -> u8 {
        self.attempts_failed
    }

    pub closed spec fn spec_concluded(self) -> bool {
        self.concluded
    }

    pub open spec fn wf(self) -> bool {
        self.spec_attempts_failed() <= MAX_FETCH_ATTEMPTS
    }

    pub fn new() -> (c: FetchCycle)
        ensures
            c.wf(),
            c.spec_attempts_failed() == 0,
            !c.spec_concluded(),
    {
        FetchCycle { attempts_failed: 0, concluded: false }
    }

    /// A fetch or conversion attempt failed.  While attempts remain the cycle
    /// retries after a pause that grows with each failure; when they run out
    /// it concludes without any publish.
    pub fn on_failure(&mut self) -> (d: FetchDecision)
        requires
            old(self).wf(),
            !old(self).spec_concluded(),
            old(self).spec_attempts_failed() < MAX_FETCH_ATTEMPTS,
        ensures
            final(self).wf(),
            final(self).spec_attempts_failed() == old(self).spec_attempts_failed() + 1,
            old(self).spec_attempts_failed() + 1 < MAX_FETCH_ATTEMPTS ==> (d
                == FetchDecision::RetryAfterMillis {
                millis: (100 * (old(self).spec_attempts_failed() + 1)) as u64,
            } && !final(self).spec_concluded()),
            old(self).spec_attempts_failed() + 1 == MAX_FETCH_ATTEMPTS ==> (d
                == FetchDecision::Abandon && final(self).spec_concluded()),
    {
        self.attempts_failed = self.attempts_failed + 1;
        if self.attempts_failed < MAX_FETCH_ATTEMPTS {
            FetchDecision::RetryAfterMillis { millis: 100 * (self.attempts_failed as u64) }
        } else {
            self.concluded = true;
            FetchDecision::Abandon
        }
    }

    /// A template was fetched and converted.  The cycle concludes: the one
    /// publish it will ever cause carries the id assigned here.
    pub fn on_success(&mut self, feed: &mut TemplateFeed) -> (id: u64)
        requires
            !old(self).spec_concluded(),
            old(feed).spec_next_id() < u64::MAX,
        ensures
            old(self).wf() ==> final(self).wf(),
            final(self).spec_concluded(),
            id == old(feed).spec_next_id(),
            final(feed).spec_next_id() == old(feed).spec_next_id() + 1,
            final(self).spec_attempts_failed() == old(self).spec_attempts_failed(),
    {
        self.concluded = true;
        feed.assign_id()
    }
}

} // verus!
