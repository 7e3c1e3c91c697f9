use vstd::prelude::*;

verus! {

/// The engine-wide cancellation signal.  It can only move from "not signaled"
/// to "signaled"; nothing ever clears it, so no observer can see it fall back
/// to `false` after having seen `true`.
pub struct ShutdownFlag {
    signaled: bool,
}

impl ShutdownFlag {
    pub closed spec fn is_signaled(self) -> bool {
        self.signaled
    }

    pub fn new() -> (f: ShutdownFlag)
        ensures
            !f.is_signaled(),
    {
        ShutdownFlag { signaled: false }
    }

    /// Raise the signal.  Idempotent: raising it twice is the same as once.
    pub fn signal(&mut self)
        ensures
            final(self).is_signaled(),
    {
        self.signaled = true;
    }

    pub fn is_set(&self) -> (b: bool)
        ensures
            b == self.is_signaled(),
    {
        self.signaled
    }
}

} // verus!
