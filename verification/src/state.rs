//! The consumption-acknowledgment latch shared between a stream core and the
//! chunk it most recently produced.
//!
//! At most one chunk may be outstanding at a time: a new chunk may only be
//! produced while `consumed` is true, and releasing the outstanding chunk is
//! the only way `consumed` becomes true again. A poll that finds the latch
//! closed records the caller's resumption handle so the release can wake it.
//!
//! The latch is acquired only at the moment a chunk is definitively produced
//! (never tentatively before a read that might still report "not ready"), so
//! a "not ready" answer from the underlying transport leaves the latch open.

use vstd::prelude::*;

verus! {

/// The shared consumption state: whether the most recently produced chunk
/// has been released, plus the resumption handle of a suspended poll.
///
/// `W` is the executor's resumption-handle (waker) type; the protocol only
/// stores and hands it back, so any type serves.
pub struct State<W> {
    /// True when no chunk is currently outstanding. Starts true.
    pub consumed: bool,
    /// The resumption handle recorded by a poll that found the latch closed.
    pub waker: Option<W>,
}

impl<W> State<W> {
    /// A fresh latch: no chunk outstanding, no suspended poll.
    pub fn new() -> (s: State<W>)
        ensures
            s.consumed,
            s.waker is None,
    {
        State { consumed: true, waker: None }
    }

    /// The latch check run at the head of every poll. If the previous chunk
    /// has been released, reports ready and changes nothing; otherwise
    /// records `waker` so the eventual release can resume the caller.
    pub fn poll_ready(&mut self, waker: W) -> (ready: bool)
        ensures
            ready == old(self).consumed,
            final(self).consumed == old(self).consumed,
            ready ==> final(self).waker == old(self).waker,
            !ready ==> final(self).waker == Some(waker),
    {
        if self.consumed {
            true
        } else {
            self.waker = Some(waker);
            false
        }
    }

    /// Takes the permission to produce a chunk: closes the latch. Callers
    /// invoke this only at the moment a chunk is actually handed out.
    pub fn begin(&mut self)
        requires
            old(self).consumed,
        ensures
            !final(self).consumed,
            final(self).waker == old(self).waker,
    {
        self.consumed = false;
    }

    /// Releases the outstanding chunk: reopens the latch and hands back any
    /// recorded resumption handle, which the caller must now invoke. Called
    /// exactly once per produced chunk, when the chunk is destroyed.
    pub fn release(&mut self) -> (w: Option<W>)
        ensures
            final(self).consumed,
            final(self).waker is None,
            w == old(self).waker,
    {
        self.consumed = true;
        let w = self.waker.take();
        w
    }
}

} // verus!
