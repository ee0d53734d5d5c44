//! The sequencer without a loop: `poll` hands over to the routine of the
//! state it finds, and the routine of the first state ends by calling that
//! of the second. Seen from outside it behaves as [`super::manual`] does.

use crate::operation::may_finish;
use crate::operation::PollableOperation;
use crate::two_ways::a_then_b::Stage;
use core::task::Context;
use core::task::Poll;
use vstd::prelude::*;

verus! {

/// Runs `a` to its end, then `b`.
pub fn a_then_b<A: PollableOperation<Output = ()>, B: PollableOperation<Output = ()>>(
    a: A,
    b: B,
) -> (seq: DoAThenB<A, B>)
    ensures
        seq@ == (Stage::<A, B>::RunningFirst { first: a, second: b }),
{
    DoAThenB::new(a, b)
}

/// A sequencer over two operations. Exactly one variant is live at a time,
/// and each holds only the operands that are still owned.
pub enum DoAThenB<A, B> {
    DoingA { a: A, b: B },
    DoingB { b: B },
    Done,
}

impl<A, B> View for DoAThenB<A, B> {
    type V = Stage<A, B>;

    open spec fn view(&self) -> Stage<A, B> {
        match *self {
            DoAThenB::DoingA { a, b } => Stage::RunningFirst { first: a, second: b },
            DoAThenB::DoingB { b } => Stage::RunningSecond { second: b },
            DoAThenB::Done => Stage::Done,
        }
    }
}

impl<A, B> DoAThenB<A, B> {
    /// Takes both operands at once; neither is polled yet.
    pub fn new(a: A, b: B) -> (seq: Self)
        ensures
            seq@ == (Stage::<A, B>::RunningFirst { first: a, second: b }),
    {
        Self::DoingA { a, b }
    }

    /// Discards the sequencer and hands back the operands that it still
    /// owned, each once and as it last was.
    pub fn release(self) -> (owned: (Option<A>, Option<B>))
        ensures
            owned == self@.owned(),
    {
        match self {
            DoAThenB::DoingA { a, b } => (Some(a), Some(b)),
            DoAThenB::DoingB { b } => (None, Some(b)),
            DoAThenB::Done => (None, None),
        }
    }
}

impl<A: PollableOperation<Output = ()>, B: PollableOperation<Output = ()>> DoAThenB<A, B> {
    /// The routine of the first state: polls the first operand and, once it
    /// has answered `Ready`, drops it, moves the second operand into the
    /// running state and goes on with [`doing_b`](Self::doing_b).
    pub fn doing_a(&mut self, cx: &mut Context<'_>) -> (out: Poll<()>)
        requires
            *old(self) is DoingA,
            old(self)@.pollable(),
        ensures
            old(self)@.step(final(self)@, out),
            out is Pending ==> final(self)@.pollable(),
            out is Ready <==> *final(self) is Done,
    {
        match self {
            DoAThenB::DoingA { a, b: _ } => {
                let ghost before = *a;
                let first = a.poll(cx);
                match first {
                    Poll::Pending => {
                        return Poll::Pending;
                    },
                    Poll::Ready(_) => {
                        assert(before.step(*a, first));
                    },
                }
            },
            _ => {},
        }
        let mut taken = DoAThenB::Done;
        core::mem::swap(self, &mut taken);
        match taken {
            DoAThenB::DoingA { a: _, b } => {
                *self = DoAThenB::DoingB { b };
            },
            _ => {},
        }
        self.doing_b(cx)
    }

    /// The routine of the second state: polls the second operand, passes its
    /// answer on, and on `Ready` leaves the sequencer done.
    pub fn doing_b(&mut self, cx: &mut Context<'_>) -> (out: Poll<()>)
        requires
            *old(self) is DoingB,
            old(self)@.pollable(),
        ensures
            Stage::<A, B>::drives_second((*old(self))->DoingB_b, final(self)@, out),
            out is Pending ==> final(self)@.pollable(),
            out is Ready <==> *final(self) is Done,
    {
        match self {
            DoAThenB::DoingB { b } => {
                let ghost before = *b;
                let second = b.poll(cx);
                match second {
                    Poll::Pending => {},
                    Poll::Ready(_) => {
                        assert(before.step(*b, second));
                        *self = DoAThenB::Done;
                    },
                }
                second
            },
            _ => Poll::Pending,
        }
    }
}

impl<A: PollableOperation<Output = ()>, B: PollableOperation<Output = ()>> PollableOperation for DoAThenB<A, B> {
    type Output = ();

    open spec fn pollable(&self) -> bool {
        self@.pollable()
    }

    open spec fn step(&self, next: Self, out: Poll<()>) -> bool {
        self@.step(next@, out)
    }

    fn poll(&mut self, cx: &mut Context<'_>) -> (out: Poll<()>)
        ensures
            out is Ready <==> *final(self) is Done,
    {
        match self {
            DoAThenB::DoingA { .. } => self.doing_a(cx),
            DoAThenB::DoingB { .. } => self.doing_b(cx),
            DoAThenB::Done => vstd::pervasive::unreached(),
        }
    }
}

} // verus!
