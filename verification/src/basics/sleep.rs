//! A timer for a driver that polls.
//!
//! The wait itself happens elsewhere, in a worker that the timer's owner
//! starts. What is here is the state on both sides of that worker: the
//! [`Shared`] cell through which the worker reports, and the [`Sleep`] timer,
//! which starts its worker on the first poll and never again.

use core::task::Poll;
use core::time::Duration;
use vstd::prelude::*;

verus! {

/// The cell that a timer shares with its worker: whether the wait is over,
/// and whom to wake when it is. `W` is the waker, a capability to ask the
/// driver for another poll. Both sides reach the cell under one lock.
pub struct Shared<W> {
    waker: W,
    done: bool,
}

impl<W: Clone> Shared<W> {
    /// The wait is over.
    pub closed spec fn done(&self) -> bool {
        self.done
    }

    /// The waker that is invoked when the wait ends.
    pub closed spec fn waker(&self) -> W {
        self.waker
    }

    /// A cell for a wait that has just begun, with the waker of the poll that
    /// began it.
    pub fn new(waker: W) -> (cell: Self)
        ensures
            !cell.done(),
            cell.waker() == waker,
    {
        Shared { waker, done: false }
    }

    /// Whether the wait is over.
    pub fn is_done(&self) -> (done: bool)
        ensures
            done == self.done(),
    {
        self.done
    }

    /// The worker's side: marks the wait as over and hands out the waker
    /// that was registered last, which the worker is to invoke before it
    /// lets go of the lock. The flag is never taken back.
    pub fn complete(&mut self) -> (due: &W)
        ensures
            final(self).done(),
            final(self).waker() == old(self).waker(),
            *due == old(self).waker(),
    {
        self.done = true;
        &self.waker
    }

    /// The timer's side. While the wait is not over, the caller's waker
    /// replaces the stored one and the answer is `Pending`; once it is over,
    /// the answer is `Ready` and the cell is left as it is.
    pub fn poll(&mut self, waker: &W) -> (out: Poll<()>)
        ensures
            final(self).done() == old(self).done(),
            out is Ready <==> old(self).done(),
            old(self).done() ==> final(self).waker() == old(self).waker(),
            !old(self).done() ==> cloned(*waker, final(self).waker()),
    {
        if !self.done {
            self.waker = waker.clone();
            return Poll::Pending;
        }
        Poll::Ready(())
    }
}

/// A timer that has not been polled yet: nothing runs until it is.
pub fn sleep<H>(duration: Duration) -> (timer: Sleep<H>)
    ensures
        timer.duration() == duration,
        timer.handle() is None,
{
    Sleep { duration, handle: None }
}

/// A timer: how long to wait, and, once the wait has begun, the handle of
/// the cell that it shares with its worker.
pub struct Sleep<H> {
    duration: Duration,
    handle: Option<H>,
}

impl<H> Sleep<H> {
    /// How long the timer waits.
    pub closed spec fn duration(&self) -> Duration {
        self.duration
    }

    /// The handle of the shared cell; `None` until the first poll.
    pub closed spec fn handle(&self) -> Option<H> {
        self.handle
    }

    /// Whether the wait has begun.
    pub fn is_started(&self) -> (started: bool)
        ensures
            started == (self.handle() is Some),
    {
        self.handle.is_some()
    }

    /// One poll of the timer.
    ///
    /// On the first poll `start` is called with the duration; it is to set up
    /// the shared cell and the worker, and the handle that it returns is
    /// kept. On every poll, the first included, `observe` is then called on
    /// the handle, and its answer is the timer's.
    pub fn poll<Start, Observe>(&mut self, start: Start, observe: Observe) -> (out: Poll<()>) where
        Start: FnOnce(Duration) -> H,
        Observe: FnOnce(&H) -> Poll<()>,

        requires
            old(self).handle() is None ==> start.requires((old(self).duration(),)),
            forall|h: H|
                old(self).handle() == Some(h) || start.ensures((old(self).duration(),), h)
                    ==> observe.requires((&h,)),
        ensures
            final(self).duration() == old(self).duration(),
            final(self).handle() is Some,
            old(self).handle() is Some ==> final(self).handle() == old(self).handle(),
            old(self).handle() is None ==> start.ensures(
                (old(self).duration(),),
                final(self).handle()->0,
            ),
            observe.ensures((&final(self).handle()->0,), out),
    {
        if self.handle.is_none() {
            let handle = start(self.duration);
            self.handle = Some(handle);
        }
        match &self.handle {
            Some(handle) => observe(handle),
            None => vstd::pervasive::unreached(),
        }
    }
}

} // verus!
