//! The cancellation signal shared by a run and its transfer sessions.

use vstd::prelude::*;

verus! {

/// The flag by which a caller asks a run to stop early.
///
/// A cancel request raises it, and nothing lowers it again but the start of
/// a run: a request that arrives while no run is active is erased when the
/// next run begins.
#[derive(Debug)]
pub struct CancellationSignal {
    requested: bool,
}

impl CancellationSignal {
    /// Whether a cancel request is pending.
    pub closed spec fn is_set(&self) -> bool {
        self.requested
    }

    /// A signal with no request pending.
    pub fn new() -> (signal: Self)
        ensures
            !signal.is_set(),
    {
        CancellationSignal { requested: false }
    }

    /// Clears the signal; done once, when a run begins.
    pub(crate) fn reset(&mut self)
        ensures
            !final(self).is_set(),
    {
        self.requested = false;
    }

    /// Raises the signal.
    pub fn request(&mut self)
        ensures
            final(self).is_set(),
    {
        self.requested = true;
    }

    /// Reads the signal.
    pub fn is_requested(&self) -> (set: bool)
        ensures
            set == self.is_set(),
    {
        self.requested
    }
}

} // verus!
